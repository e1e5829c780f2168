use evidence_store::decimal::decimal_string;
use evidence_store::message::{payload_code, query_message, upload_message};

#[test]
fn decimal_string_of_zero() {
    assert_eq!(decimal_string(0), "0");
}

#[test]
fn decimal_string_of_positive_and_negative_values() {
    assert_eq!(decimal_string(1234567890), "1234567890");
    assert_eq!(decimal_string(-42), "-42");
    assert_eq!(decimal_string(10), "10");
    assert_eq!(decimal_string(-9), "-9");
}

#[test]
fn decimal_string_of_extremes_matches_to_string() {
    assert_eq!(decimal_string(i64::MAX), i64::MAX.to_string());
    assert_eq!(decimal_string(i64::MIN), "-9223372036854775808");
    for n in [-1000i64, -1, 7, 99, 100, 1560000000] {
        assert_eq!(decimal_string(n), n.to_string());
    }
}

#[test]
fn upload_message_layout() {
    assert_eq!(
        upload_message("hello", 1560000000),
        "evidence=hello&timestamp=1560000000"
    );
    assert_eq!(upload_message("", -5), "evidence=&timestamp=-5");
}

#[test]
fn query_message_layout() {
    assert_eq!(
        query_message("0xabc", 17),
        "txid=0xabc&timestamp=17"
    );
}

#[test]
fn payload_code_is_prefixed_lowercase_hex_of_utf8_bytes() {
    assert_eq!(payload_code("ab"), "0x6162");
    assert_eq!(payload_code(""), "0x");
    assert_eq!(payload_code("é"), "0xc3a9");
    assert_eq!(payload_code("\u{ff}\u{1f600}"), "0xc3bff09f9880");
    let msg = upload_message("x", 1);
    assert_eq!(payload_code(&msg), format!("0x{}", hex::encode(msg.as_bytes())));
}

#[test]
fn upload_and_query_messages_never_coincide() {
    for (a, b, t) in [("x", "x", 1i64), ("", "", 0), ("txid=", "evidence=", 5)] {
        assert_ne!(upload_message(a, t), query_message(b, t));
    }
}

#[test]
fn different_messages_travel_under_different_codes() {
    assert_ne!(payload_code("evidence=a&timestamp=1"), payload_code("evidence=b&timestamp=1"));
    assert_ne!(payload_code("é"), payload_code("e"));
    assert_eq!(payload_code("evidence=a").len(), 2 + 2 * "evidence=a".len());
}
