use cita_tool::{ProtoMessage, Transaction, UnverifiedTransaction};
use evidence_store::rpc::{
    checked_strip_enclosing, payload_from_reply, reply_field_text, strip_enclosing,
    tx_hash_from_reply,
};

fn encoded_transaction(data: Option<&[u8]>) -> String {
    let mut utx = UnverifiedTransaction::new();
    if let Some(d) = data {
        let mut tx = Transaction::new();
        tx.set_data(d.to_vec());
        utx.set_transaction(tx);
    }
    format!("0x{}", hex::encode(utx.write_to_bytes().unwrap()))
}

#[test]
fn strip_enclosing_cuts_the_quotes() {
    assert_eq!(strip_enclosing("\"0xabc\""), "0xabc");
    assert_eq!(strip_enclosing("ab"), "");
    assert_eq!(strip_enclosing("[é]"), "é");
}

#[test]
fn checked_strip_enclosing_refuses_short_or_non_ascii_ends() {
    assert_eq!(checked_strip_enclosing("5"), None);
    assert_eq!(checked_strip_enclosing(""), None);
    assert_eq!(checked_strip_enclosing("éab\""), None);
    assert_eq!(checked_strip_enclosing("\"abé"), None);
    assert_eq!(checked_strip_enclosing("\"ok\""), Some("ok".to_string()));
}

#[test]
fn tx_hash_is_read_from_the_reply() {
    assert_eq!(
        tx_hash_from_reply(r#"{"hash":"0x1234","status":"OK"}"#),
        Some("0x1234".to_string())
    );
}

#[test]
fn a_missing_hash_reads_as_the_inside_of_null() {
    assert_eq!(tx_hash_from_reply(r#"{"status":"OK"}"#), Some("ul".to_string()));
}

#[test]
fn a_reply_that_is_not_json_gives_no_hash() {
    assert_eq!(tx_hash_from_reply("not json"), None);
    assert_eq!(reply_field_text(r#"{"hash":7}"#, "hash"), None);
    assert_eq!(reply_field_text(r#"{"hash":17}"#, "hash"), Some(String::new()));
}

#[test]
fn payload_is_decoded_from_the_reply_content() {
    let content = encoded_transaction(Some(b"evidence=abc&timestamp=1"));
    let reply = format!("{{\"content\":\"{}\",\"hash\":\"0x01\"}}", content);
    assert_eq!(
        payload_from_reply(&reply),
        Some(Some(b"evidence=abc&timestamp=1".to_vec()))
    );
}

#[test]
fn payload_of_a_reply_without_transaction() {
    let reply = format!("{{\"content\":\"{}\"}}", encoded_transaction(None));
    assert_eq!(payload_from_reply(&reply), Some(None));
}

#[test]
fn payload_of_an_unreadable_reply() {
    assert_eq!(payload_from_reply(r#"{"content":"0xzz"}"#), None);
    assert_eq!(payload_from_reply("]"), None);
}
