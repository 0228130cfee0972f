use ios_examples::decimal::{decimal_string, parse_decimal, write_decimal};
use ios_examples::notification::{notification_entity_bits, notification_identifier};

#[test]
fn decimal_spelling_matches_to_string() {
    for n in [0u64, 1, 9, 10, 42, 100, 4294967296, u64::MAX - 1, u64::MAX] {
        assert_eq!(decimal_string(n), n.to_string());
    }
    for n in 0u64..2000 {
        assert_eq!(decimal_string(n), n.to_string());
    }
}

#[test]
fn write_decimal_appends() {
    let mut s = String::from("id:");
    write_decimal(&mut s, 907);
    assert_eq!(s, "id:907");
}

#[test]
fn parse_accepts_what_str_parse_accepts() {
    for text in [
        "0", "7", "+7", "007", "+0", "42", "18446744073709551615", "18446744073709551616",
        "99999999999999999999", "", "+", "-", "-1", "-0", "12a", "a12", " 1", "1 ", "++1", "+-1",
        "1_000", "١٢", "4294967296",
    ] {
        assert_eq!(parse_decimal(text), text.parse::<u64>().ok(), "text {:?}", text);
    }
}

#[test]
fn parse_edge_cases() {
    assert_eq!(parse_decimal("+12"), Some(12));
    assert_eq!(parse_decimal("18446744073709551615"), Some(u64::MAX));
    assert_eq!(parse_decimal("18446744073709551616"), None);
    assert_eq!(parse_decimal("+"), None);
    assert_eq!(parse_decimal(""), None);
    assert_eq!(parse_decimal("-3"), None);
}

#[test]
fn identifier_leads_back_to_its_entity() {
    for bits in [0u64, 1, 4294967297, 8589934593, u64::MAX] {
        let id = notification_identifier(bits);
        assert_eq!(id, bits.to_string());
        assert_eq!(notification_entity_bits(&id), Some(bits));
    }
    assert_eq!(notification_entity_bits("not a number"), None);
}
