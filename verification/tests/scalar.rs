use libliquefy::model::traits::{FromJson, ToJson};
use libliquefy::error::{Error, InvalidUri, ParseReason};
use libliquefy::json::{Json, Mode};
use libliquefy::model::common::{DateTime, Uri, Uuid};

#[test]
fn uuid_reads_the_hyphenated_form() {
    let id = Uuid::from_str("a1a2a3a4-b1b2-c1c2-d1d2-d3d4d5d6d7d8").unwrap();
    assert_eq!(id.as_u128(), 0xa1a2a3a4b1b2c1c2d1d2d3d4d5d6d7d8);
}

#[test]
fn uuid_writes_the_hyphenated_form_in_lower_case() {
    let id = Uuid::from_u128(0xA1A2A3A4B1B2C1C2D1D2D3D4D5D6D7D8);
    assert_eq!(id.to_string(), "a1a2a3a4-b1b2-c1c2-d1d2-d3d4d5d6d7d8");
    assert_eq!(Uuid::from_u128(0).to_string(), "00000000-0000-0000-0000-000000000000");
    assert_eq!(Uuid::from_u128(0x1f).to_string(), "00000000-0000-0000-0000-00000000001f");
    assert_eq!(Uuid::from_u128(u128::MAX).to_string(), "ffffffff-ffff-ffff-ffff-ffffffffffff");
}

#[test]
fn uuid_reads_its_other_forms() {
    let id = Uuid::from_u128(0x550e8400e29b41d4a716446655440000);
    assert_eq!(Uuid::from_str("550e8400e29b41d4a716446655440000").unwrap(), id);
    assert_eq!(Uuid::from_str("550E8400-E29B-41D4-A716-446655440000").unwrap(), id);
    assert_eq!(Uuid::from_str("urn:uuid:550e8400-e29b-41d4-a716-446655440000").unwrap(), id);
    assert_eq!(Uuid::from_str("{550e8400-e29b-41d4-a716-446655440000}").unwrap(), id);
}

#[test]
fn uuid_round_trips() {
    for value in [0u128, 1, 0x550e8400e29b41d4a716446655440000, u128::MAX, 0x0123456789abcdef0123456789abcdef] {
        let id = Uuid::from_u128(value);
        assert_eq!(Uuid::from_str(&id.to_string()).unwrap(), id);
        assert_eq!(Uuid::decode(&id.encode(), Mode::Strict).unwrap(), id);
    }
}

#[test]
fn uuid_accepts_any_version() {
    // version nibble 1, 4 and 0
    assert!(Uuid::from_str("550e8400-e29b-11d4-a716-446655440000").is_ok());
    assert!(Uuid::from_str("550e8400-e29b-41d4-a716-446655440000").is_ok());
    assert!(Uuid::from_str("550e8400-e29b-01d4-a716-446655440000").is_ok());
}

#[test]
fn uuid_refuses_other_text() {
    for text in ["", "not a uuid", "550e8400-e29b-41d4-a716-44665544000", "550e8400-e29b-41d4-a716-44665544000g"] {
        assert!(matches!(
            Uuid::from_str(text),
            Err(Error::ParseError { reason: ParseReason::Uuid { .. } })
        ));
    }
}

#[test]
fn uuid_is_a_json_string() {
    let id = Uuid::from_u128(0x550e8400e29b41d4a716446655440000);
    assert_eq!(id.encode(), Json::Text("550e8400-e29b-41d4-a716-446655440000".to_string()));
    assert!(matches!(
        Uuid::decode(&Json::Number("1".to_string()), Mode::Strict),
        Err(Error::ParseError { reason: ParseReason::Shape { .. } })
    ));
}

#[test]
fn uri_reads_a_uri_and_writes_it_back() {
    for text in [
        "https://public.liquidity.network",
        "https://rinkeby.liquidity.network/audit/transfers/?limit=10&offset=20",
        "http://user@example.com:8080/a/b?c=d#e",
        "urn:uuid:550e8400-e29b-41d4-a716-446655440000",
        "mailto:someone@example.com",
    ] {
        let uri = Uri::from_str(text).unwrap();
        assert_eq!(uri.to_string(), text);
        assert_eq!(Uri::from_str(&uri.to_string()).unwrap(), uri);
        assert_eq!(Uri::decode(&uri.encode(), Mode::Strict).unwrap(), uri);
    }
}

#[test]
fn uri_refuses_a_relative_reference() {
    for text in ["/audit/transfers", "audit", "", "//example.com/a", "?x=1"] {
        assert!(matches!(
            Uri::from_str(text),
            Err(Error::InvalidURI { source: InvalidUri::Relative })
        ));
    }
}

#[test]
fn uri_refuses_malformed_text() {
    for text in ["http://exa mple.com", "http://example.com/%zz", "1a:b", "http://[::1"] {
        assert!(matches!(
            Uri::from_str(text),
            Err(Error::InvalidURI { source: InvalidUri::Malformed { .. } })
        ));
    }
}

#[test]
fn uri_is_a_json_string() {
    let uri = Uri::from_str("https://limbo.liquidity.network").unwrap();
    assert_eq!(uri.encode(), Json::Text("https://limbo.liquidity.network".to_string()));
    assert!(matches!(Uri::decode(&Json::Null, Mode::Strict), Err(Error::ParseError { .. })));
    assert!(matches!(Uri::decode(&Json::Text("nope".to_string()), Mode::Strict), Err(Error::InvalidURI { .. })));
}

#[test]
fn timestamp_reads_rfc_3339() {
    let instant = DateTime::from_str("2015-05-15T00:00:00Z").unwrap();
    assert_eq!(instant.timestamp(), 1431648000);
    assert_eq!(instant.timestamp_subsec_nanos(), 0);
    let instant = DateTime::from_str("2018-01-26T18:30:09.453829Z").unwrap();
    assert_eq!(instant.timestamp(), 1516991409);
    assert_eq!(instant.timestamp_subsec_nanos(), 453_829_000);
}

#[test]
fn timestamp_is_taken_to_utc() {
    let utc = DateTime::from_str("2012-12-12T12:12:12Z").unwrap();
    assert_eq!(DateTime::from_str("2012-12-12 12:12:12Z").unwrap(), utc);
    assert_eq!(DateTime::from_str("2012-12-12T12:12:12+00:00").unwrap(), utc);
    assert_eq!(DateTime::from_str("2012-12-12T14:12:12+02:00").unwrap(), utc);
    assert_eq!(utc.to_string(), "2012-12-12T12:12:12Z");
}

#[test]
fn timestamp_writes_iso_8601_with_z() {
    assert_eq!(DateTime::from_timestamp(1431648000, 0).unwrap().to_string(), "2015-05-15T00:00:00Z");
    assert_eq!(DateTime::from_timestamp(0, 0).unwrap().to_string(), "1970-01-01T00:00:00Z");
    assert_eq!(
        DateTime::from_timestamp(1516991409, 453_000_000).unwrap().to_string(),
        "2018-01-26T18:30:09.453Z"
    );
    assert_eq!(
        DateTime::from_timestamp(1516991409, 453_829_000).unwrap().to_string(),
        "2018-01-26T18:30:09.453829Z"
    );
    assert_eq!(
        DateTime::from_timestamp(1516991409, 1).unwrap().to_string(),
        "2018-01-26T18:30:09.000000001Z"
    );
    assert_eq!(DateTime::from_timestamp(-1, 0).unwrap().to_string(), "1969-12-31T23:59:59Z");
}

#[test]
fn timestamp_round_trips() {
    for (seconds, nanos) in [(0i64, 0u32), (1431648000, 0), (1516991409, 453_829_000), (-1, 999_999_999), (253_402_300_799, 0)] {
        let instant = DateTime::from_timestamp(seconds, nanos).unwrap();
        let back = DateTime::from_str(&instant.to_string()).unwrap();
        assert_eq!(back, instant);
        assert_eq!(back.timestamp(), seconds);
        assert_eq!(back.timestamp_subsec_nanos(), nanos);
        assert_eq!(DateTime::decode(&instant.encode(), Mode::Strict).unwrap(), instant);
    }
}

#[test]
fn timestamp_refuses_what_the_calendar_cannot_hold() {
    assert!(DateTime::from_timestamp(i64::MAX, 0).is_none());
    assert!(DateTime::from_timestamp(i64::MIN, 0).is_none());
    assert!(DateTime::from_timestamp(0, 2_000_000_000).is_none());
    assert!(DateTime::from_timestamp(0, 1_500_000_000).is_none());
}

#[test]
fn timestamp_refuses_other_text() {
    for text in ["", "yesterday", "2015-05-15", "2015-13-15T00:00:00Z", "2015-05-15T00:00:00"] {
        assert!(matches!(
            DateTime::from_str(text),
            Err(Error::ParseError { reason: ParseReason::Timestamp { .. } })
        ));
    }
}

#[test]
fn timestamp_is_a_json_string() {
    let instant = DateTime::from_timestamp(1431648000, 0).unwrap();
    assert_eq!(instant.encode(), Json::Text("2015-05-15T00:00:00Z".to_string()));
    assert!(matches!(
        DateTime::decode(&Json::Number("1431648000".to_string()), Mode::Strict),
        Err(Error::ParseError { reason: ParseReason::Shape { .. } })
    ));
}
