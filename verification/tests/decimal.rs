use libliquefy::model::traits::{FromJson, ToJson};
use libliquefy::error::{Error, ParseDecimalError};
use libliquefy::json::{Json, Mode};
use libliquefy::model::common::Decimal;
use libliquefy::model::decimal::DecimalEncoding;
use std::cmp::Ordering;

fn decimal(text: &str) -> Decimal {
    Decimal::from_str(text).unwrap()
}

#[test]
fn decimal_reads_and_writes_small_numbers() {
    assert_eq!(decimal("0").to_string(), "0");
    assert_eq!(decimal("7").to_string(), "7");
    assert_eq!(decimal("1223").to_string(), "1223");
    assert_eq!(decimal("-15").to_string(), "-15");
}

#[test]
fn decimal_round_trips_beyond_64_bits() {
    let text = "123456789012345678901234567890";
    let amount = decimal(text);
    assert_eq!(amount.to_string(), text);
    assert_eq!(decimal(&amount.to_string()), amount);
    assert_eq!(amount.to_u64(), None);
    assert_eq!(amount.to_i64(), None);
}

#[test]
fn decimal_equality_is_exact_beyond_64_bits() {
    let a = decimal("123456789012345678901234567890");
    let b = decimal("123456789012345678901234567891");
    assert_ne!(a, b);
    assert_eq!(a.compare(&b), Ordering::Less);
    assert_eq!(b.compare(&a), Ordering::Greater);
    assert_eq!(a.compare(&decimal("123456789012345678901234567890")), Ordering::Equal);
    // 2^64 and 2^64 + 1 differ although both truncate alike.
    assert_ne!(decimal("18446744073709551616"), decimal("18446744073709551617"));
    assert_ne!(decimal("18446744073709551616"), decimal("0"));
}

#[test]
fn decimal_accepts_a_sign() {
    assert_eq!(decimal("+42").to_string(), "42");
    assert_eq!(decimal("-42").to_string(), "-42");
    assert_eq!(decimal("-0").to_string(), "0");
    assert_eq!(decimal("-0"), decimal("0"));
    assert_eq!(decimal("+0"), decimal("0"));
}

#[test]
fn decimal_drops_leading_zeros() {
    assert_eq!(decimal("000123").to_string(), "123");
    assert_eq!(decimal("-000").to_string(), "0");
    assert_eq!(decimal("0000"), decimal("0"));
}

#[test]
fn decimal_skips_whitespace_and_separators() {
    assert_eq!(decimal("123 456 789").to_string(), "123456789");
    assert_eq!(decimal(" \t\n-\r1 2\u{b}3\u{c}").to_string(), "-123");
    assert_eq!(decimal("1_000_000").to_string(), "1000000");
    assert_eq!(decimal("1__0_").to_string(), "10");
}

fn fault(text: &str) -> ParseDecimalError {
    match Decimal::from_str(text) {
        Err(Error::InvalidDecimal { source }) => source,
        other => panic!("{:?} for {:?}", other, text),
    }
}

#[test]
fn decimal_refuses_a_text_without_digits() {
    assert_eq!(fault(""), ParseDecimalError::NoDigits);
    assert_eq!(fault("   "), ParseDecimalError::NoDigits);
    assert_eq!(fault("-"), ParseDecimalError::NoDigits);
    assert_eq!(fault("+ "), ParseDecimalError::NoDigits);
}

#[test]
fn decimal_refuses_other_characters() {
    assert_eq!(fault("789a"), ParseDecimalError::InvalidDigit);
    assert_eq!(fault("_1"), ParseDecimalError::InvalidDigit);
    assert_eq!(fault("-_1"), ParseDecimalError::InvalidDigit);
    assert_eq!(fault("--1"), ParseDecimalError::InvalidDigit);
    assert_eq!(fault("+-1"), ParseDecimalError::InvalidDigit);
    assert_eq!(fault("1-"), ParseDecimalError::InvalidDigit);
    assert_eq!(fault("1.5"), ParseDecimalError::InvalidDigit);
    assert_eq!(fault("1e3"), ParseDecimalError::InvalidDigit);
    assert_eq!(fault("\u{661}"), ParseDecimalError::InvalidDigit);
    assert_eq!(fault("_"), ParseDecimalError::InvalidDigit);
}

#[test]
fn decimal_orders_as_integers() {
    let ordered = ["-100", "-99", "-1", "0", "1", "9", "10", "99", "100", "18446744073709551616"];
    for i in 0..ordered.len() {
        for j in 0..ordered.len() {
            let (a, b) = (decimal(ordered[i]), decimal(ordered[j]));
            assert_eq!(a.compare(&b), i.cmp(&j), "{} ? {}", ordered[i], ordered[j]);
            assert_eq!(a.partial_cmp(&b), Some(i.cmp(&j)));
            assert_eq!(a == b, i == j);
            assert_eq!(a < b, i < j);
        }
    }
}

#[test]
fn decimal_from_machine_integers() {
    assert_eq!(Decimal::from_u64(0).to_string(), "0");
    assert_eq!(Decimal::from_u64(10).to_string(), "10");
    assert_eq!(Decimal::from_u64(1234567890).to_string(), "1234567890");
    assert_eq!(Decimal::from_u64(u64::MAX).to_string(), "18446744073709551615");
    assert_eq!(Decimal::from_u64(10_000_000_000_000_000_000).to_string(), "10000000000000000000");
    assert_eq!(Decimal::from_i64(0).to_string(), "0");
    assert_eq!(Decimal::from_i64(-1).to_string(), "-1");
    assert_eq!(Decimal::from_i64(i64::MAX).to_string(), "9223372036854775807");
    assert_eq!(Decimal::from_i64(i64::MIN).to_string(), "-9223372036854775808");
}

#[test]
fn decimal_to_machine_integers() {
    assert_eq!(decimal("0").to_u64(), Some(0));
    assert_eq!(decimal("18446744073709551615").to_u64(), Some(u64::MAX));
    assert_eq!(decimal("18446744073709551616").to_u64(), None);
    assert_eq!(decimal("99999999999999999999").to_u64(), None);
    assert_eq!(decimal("-1").to_u64(), None);
    assert_eq!(decimal("9223372036854775807").to_i64(), Some(i64::MAX));
    assert_eq!(decimal("9223372036854775808").to_i64(), None);
    assert_eq!(decimal("-9223372036854775808").to_i64(), Some(i64::MIN));
    assert_eq!(decimal("-9223372036854775809").to_i64(), None);
    assert_eq!(decimal("-5").to_i64(), Some(-5));
}

#[test]
fn decimal_clone_is_equal() {
    let a = decimal("-123456789012345678901234567890");
    assert_eq!(a.clone(), a);
}

#[test]
fn decimal_is_written_as_text_or_as_number() {
    let amount = decimal("123456789012345678901234567890");
    assert_eq!(
        amount.encode_as(DecimalEncoding::Text),
        Json::Text("123456789012345678901234567890".to_string())
    );
    assert_eq!(
        amount.encode_as(DecimalEncoding::Number),
        Json::Number("123456789012345678901234567890".to_string())
    );
    assert_eq!(amount.encode_as(DecimalEncoding::Text).to_text().unwrap(), "\"123456789012345678901234567890\"");
    assert_eq!(amount.encode(), amount.encode_as(DecimalEncoding::Text));
    assert_eq!(amount.to_json().unwrap(), "\"123456789012345678901234567890\"");
    assert_eq!(amount.encode_as(DecimalEncoding::Number).to_text().unwrap(), "123456789012345678901234567890");
}

#[test]
fn decimal_is_read_from_text_and_from_number() {
    let amount = decimal("123456789012345678901234567890");
    let text = Json::parse("\"123456789012345678901234567890\"").unwrap();
    let number = Json::parse("123456789012345678901234567890").unwrap();
    assert_eq!(Decimal::decode(&text, Mode::Strict).unwrap(), amount);
    assert_eq!(Decimal::decode(&number, Mode::Strict).unwrap(), amount);
    assert_eq!(Decimal::decode(&amount.encode_as(DecimalEncoding::Text), Mode::Lenient).unwrap(), amount);
    assert_eq!(Decimal::decode(&amount.encode_as(DecimalEncoding::Number), Mode::Lenient).unwrap(), amount);
    assert_eq!(Decimal::from_json("\"-12\"", Mode::Strict).unwrap(), decimal("-12"));
    assert_eq!(Decimal::from_json("-12", Mode::Strict).unwrap(), decimal("-12"));
}

#[test]
fn decimal_is_not_read_from_other_values() {
    assert!(matches!(Decimal::decode(&Json::Null, Mode::Lenient), Err(Error::ParseError { .. })));
    assert!(matches!(Decimal::decode(&Json::Bool(true), Mode::Lenient), Err(Error::ParseError { .. })));
    assert!(matches!(
        Decimal::decode(&Json::parse("1.5").unwrap(), Mode::Lenient),
        Err(Error::InvalidDecimal { source: ParseDecimalError::InvalidDigit })
    ));
    assert!(matches!(
        Decimal::decode(&Json::Text(String::new()), Mode::Lenient),
        Err(Error::InvalidDecimal { source: ParseDecimalError::NoDigits })
    ));
}

#[test]
fn decimal_adds_exactly() {
    let sum = |a: &str, b: &str| decimal(a).add(&decimal(b)).to_string();
    assert_eq!(sum("0", "0"), "0");
    assert_eq!(sum("5", "5"), "10");
    assert_eq!(sum("999", "1"), "1000");
    assert_eq!(sum("1", "999"), "1000");
    assert_eq!(sum("18446744073709551615", "1"), "18446744073709551616");
    assert_eq!(
        sum("123456789012345678901234567890", "987654321098765432109876543210"),
        "1111111110111111111011111111100"
    );
    assert_eq!(sum("-5", "-7"), "-12");
    assert_eq!(sum("-5", "7"), "2");
    assert_eq!(sum("5", "-7"), "-2");
    assert_eq!(sum("5", "-5"), "0");
    assert_eq!(sum("-1000", "1"), "-999");
    assert_eq!(sum("1000", "-1"), "999");
    assert_eq!(sum("100000000000000000000", "-99999999999999999999"), "1");
    assert_eq!(sum("0", "-3"), "-3");
}

#[test]
fn decimal_subtracts_exactly() {
    let difference = |a: &str, b: &str| decimal(a).sub(&decimal(b)).to_string();
    assert_eq!(difference("10", "1"), "9");
    assert_eq!(difference("1", "10"), "-9");
    assert_eq!(difference("0", "0"), "0");
    assert_eq!(difference("-5", "-5"), "0");
    assert_eq!(difference("18446744073709551616", "1"), "18446744073709551615");
    assert_eq!(
        difference("123456789012345678901234567890", "123456789012345678901234567891"),
        "-1"
    );
    assert_eq!(difference("5", "-5"), "10");
    assert_eq!(difference("1000000000000000000000", "1"), "999999999999999999999");
}

#[test]
fn decimal_sign_and_zero() {
    assert!(Decimal::zero().is_zero());
    assert!(decimal("-0").is_zero());
    assert!(!decimal("1").is_zero());
    assert!(decimal("-1").is_negative());
    assert!(!decimal("0").is_negative());
    assert!(!decimal("-0").is_negative());
    assert_eq!(decimal("5").neg().to_string(), "-5");
    assert_eq!(decimal("-5").neg().to_string(), "5");
    assert_eq!(decimal("0").neg().to_string(), "0");
    assert_eq!(Decimal::zero(), decimal("0"));
    let a = decimal("123456789012345678901234567890");
    assert_eq!(a.add(&a.neg()), Decimal::zero());
    assert_eq!(a.add(&decimal("1")).sub(&decimal("1")), a);
}

#[test]
fn decimal_multiplies_exactly() {
    let product = |a: &str, b: &str| decimal(a).mul(&decimal(b)).to_string();
    assert_eq!(product("0", "0"), "0");
    assert_eq!(product("0", "123"), "0");
    assert_eq!(product("123", "0"), "0");
    assert_eq!(product("-0", "9"), "0");
    assert_eq!(product("1", "1"), "1");
    assert_eq!(product("9", "9"), "81");
    assert_eq!(product("12", "34"), "408");
    assert_eq!(product("-12", "34"), "-408");
    assert_eq!(product("12", "-34"), "-408");
    assert_eq!(product("-12", "-34"), "408");
    assert_eq!(product("1000", "1000"), "1000000");
    assert_eq!(product("18446744073709551616", "18446744073709551616"), "340282366920938463463374607431768211456");
    assert_eq!(
        product("123456789012345678901234567890", "987654321098765432109876543210"),
        "121932631137021795226185032733622923332237463801111263526900"
    );
    assert_eq!(product("4294967296", "4294967296"), "18446744073709551616");
}

#[test]
fn decimal_arithmetic_agrees_with_machine_arithmetic() {
    let samples: [i64; 12] = [0, 1, -1, 9, 10, -10, 99, 100, 12345, -67890, 4294967296, -9999999999];
    for a in samples {
        for b in samples {
            let (x, y) = (Decimal::from_i64(a), Decimal::from_i64(b));
            let wide = |n: i128| decimal(&n.to_string());
            assert_eq!(x.add(&y), wide(a as i128 + b as i128), "{} + {}", a, b);
            assert_eq!(x.sub(&y), wide(a as i128 - b as i128), "{} - {}", a, b);
            assert_eq!(x.mul(&y), wide(a as i128 * b as i128), "{} * {}", a, b);
            assert_eq!(x.compare(&y), a.cmp(&b), "{} ? {}", a, b);
            assert_eq!(x.to_i64(), Some(a));
        }
    }
}
