use vstd::prelude::*;
use vstd::utf8::encode_utf8;

use crate::decimal::{decimal_string, decimal_text};
use crate::hex_text::{encode_hex, hex_lower, lemma_hex_lower_injective};
use vstd::utf8::encode_utf8_decode_utf8;

verus! {

/// `evidence=`, the field name that opens an upload message.
pub open spec fn evidence_field() -> Seq<char> {
    seq!['e', 'v', 'i', 'd', 'e', 'n', 'c', 'e', '=']
}

/// `txid=`, the field name that opens a query message.
pub open spec fn txid_field() -> Seq<char> {
    seq!['t', 'x', 'i', 'd', '=']
}

/// `&timestamp=`, the separator and field name of the timestamp.
pub open spec fn timestamp_field() -> Seq<char> {
    seq!['&', 't', 'i', 'm', 'e', 's', 't', 'a', 'm', 'p', '=']
}

/// The text a client signs to upload `evidence` at `timestamp`:
/// `evidence=<evidence>&timestamp=<decimal timestamp>`.
pub open spec fn upload_text(evidence: Seq<char>, timestamp: int) -> Seq<char> {
    evidence_field() + evidence + timestamp_field() + decimal_text(timestamp)
}

/// The text a client signs to query transaction `txid` at `timestamp`:
/// `txid=<txid>&timestamp=<decimal timestamp>`.
pub open spec fn query_text(txid: Seq<char>, timestamp: int) -> Seq<char> {
    txid_field() + txid + timestamp_field() + decimal_text(timestamp)
}

/// The code of a transaction that stores `message` on chain: `0x` followed by
/// the lowercase hexadecimal of the message's UTF-8 bytes.
pub open spec fn payload_code_text(message: Seq<char>) -> Seq<char> {
    seq!['0', 'x'] + hex_lower(encode_utf8(message))
}

fn signed_message(field: &str, value: &str, timestamp: i64) -> (msg: String)
    ensures
        msg@ == field@ + value@ + timestamp_field() + decimal_text(timestamp as int),
{
    let mut msg = String::from_str(field);
    msg.append(value);
    proof {
        reveal_strlit("&timestamp=");
    }
    msg.append("&timestamp=");
    let stamp = decimal_string(timestamp);
    msg.append(stamp.as_str());
    msg
}

/// The message signed for an evidence upload.
pub fn upload_message(evidence: &str, timestamp: i64) -> (msg: String)
    ensures
        msg@ == upload_text(evidence@, timestamp as int),
{
    proof {
        reveal_strlit("evidence=");
    }
    signed_message("evidence=", evidence, timestamp)
}

/// The message signed for an evidence query.
pub fn query_message(txid: &str, timestamp: i64) -> (msg: String)
    ensures
        msg@ == query_text(txid@, timestamp as int),
{
    proof {
        reveal_strlit("txid=");
    }
    signed_message("txid=", txid, timestamp)
}

/// The transaction code that carries `message`: `0x` and the hexadecimal of
/// its UTF-8 bytes.
pub fn payload_code(message: &str) -> (code: String)
    ensures
        code@ == payload_code_text(message@),
{
    let digits = encode_hex(message.as_bytes());
    proof {
        reveal_strlit("0x");
    }
    let mut code = String::from_str("0x");
    code.append(digits.as_str());
    code
}

/// Two different kinds of request never sign the same text: an upload
/// message starts with `e`, a query message with `t`.
pub proof fn lemma_upload_and_query_messages_differ(
    evidence: Seq<char>,
    txid: Seq<char>,
    t1: int,
    t2: int,
)
    ensures
        upload_text(evidence, t1) != query_text(txid, t2),
{
    assert(upload_text(evidence, t1)[0] == 'e');
    assert(query_text(txid, t2)[0] == 't');
}

/// The code of a stored transaction determines the message it carries: two
/// different messages never travel under the same code.
pub proof fn lemma_payload_code_injective(m1: Seq<char>, m2: Seq<char>)
    requires
        payload_code_text(m1) == payload_code_text(m2),
    ensures
        m1 == m2,
{
    let c1 = payload_code_text(m1);
    let c2 = payload_code_text(m2);
    assert(hex_lower(encode_utf8(m1)) =~= c1.subrange(2, c1.len() as int));
    assert(hex_lower(encode_utf8(m2)) =~= c2.subrange(2, c2.len() as int));
    lemma_hex_lower_injective(encode_utf8(m1), encode_utf8(m2));
    encode_utf8_decode_utf8(m1);
    encode_utf8_decode_utf8(m2);
}

} // verus!
