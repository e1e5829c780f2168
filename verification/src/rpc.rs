use vstd::prelude::*;

use std::str::FromStr;

verus! {

/// The compact JSON text of member `key` of the JSON document `doc`, as
/// `serde_json` renders `value[key]` after parsing `doc` into a `Value`
/// (`null` when `doc` is not an object or has no such member); `None` when
/// `doc` is not JSON.
pub uninterp spec fn json_member_text(doc: Seq<char>, key: Seq<char>) -> Option<Seq<char>>;

/// Parses `doc` with `serde_json::from_str` into a `serde_json::Value`,
/// indexes it with `key` and renders the member with `to_string`.
///
/// Trusted: the result is the named function of the two texts. Indexing a
/// `Value` by a string never panics (it gives `null` for a missing member),
/// and rendering a `Value` never fails. Nothing is said of which texts are
/// JSON nor of how a value is rendered.
#[verifier::external_body]
fn json_member(doc: &str, key: &str) -> (text: Option<String>)
    ensures
        text.deep_view() == json_member_text(doc@, key@),
{
    match serde_json::from_str::<serde_json::Value>(doc) {
        Ok(value) => Some(value[key].to_string()),
        Err(_) => None,
    }
}

/// What a CITA `UnverifiedTransaction` parsed from the hexadecimal text
/// `content` (with `UnverifiedTransaction::from_str`) carries: `None` when
/// the text does not parse, `Some(None)` when it holds no transaction, and
/// `Some(Some(data))` with the `data` field of the transaction otherwise.
pub uninterp spec fn unverified_tx_payload(content: Seq<char>) -> Option<Option<Seq<u8>>>;

/// The plain view of a decoded transaction payload.
pub open spec fn payload_view(payload: Option<Option<Vec<u8>>>) -> Option<Option<Seq<u8>>> {
    match payload {
        Some(Some(data)) => Some(Some(data@)),
        Some(None) => Some(None),
        None => None,
    }
}

/// Parses a CITA unverified transaction from hexadecimal text with
/// `cita_tool::UnverifiedTransaction::from_str` and takes the `data` of the
/// transaction it holds.
///
/// Trusted: the result is the named function of the text; the parse is a
/// hex decode followed by a protobuf decode, which depend on the text alone.
#[verifier::external_body]
fn decode_unverified_transaction(content: &str) -> (payload: Option<Option<Vec<u8>>>)
    ensures
        payload_view(payload) == unverified_tx_payload(content@),
{
    match cita_tool::UnverifiedTransaction::from_str(content) {
        Ok(tx) => match tx.transaction.into_option() {
            Some(transaction) => Some(Some(transaction.data)),
            None => Some(None),
        },
        Err(_) => None,
    }
}

/// A rendering whose enclosing characters can be cut off: at least two
/// characters, the first and the last of them ASCII.
pub open spec fn enclosed(text: Seq<char>) -> bool {
    &&& text.len() >= 2
    &&& text[0] <= '\u{7f}'
    &&& text.last() <= '\u{7f}'
}

/// A rendering without its first and last characters (the quotes around a
/// JSON string).
pub open spec fn inner_text(text: Seq<char>) -> Seq<char> {
    text.subrange(1, text.len() - 1)
}

/// The text of member `key` of a JSON reply, with its enclosing characters
/// cut off; `None` when the reply is not JSON or the member's rendering
/// cannot be cut.
pub open spec fn reply_field(response: Seq<char>, key: Seq<char>) -> Option<Seq<char>> {
    match json_member_text(response, key) {
        Some(text) => if enclosed(text) {
            Some(inner_text(text))
        } else {
            None
        },
        None => None,
    }
}

/// `hash`, the member of a send reply that holds the transaction hash.
pub open spec fn hash_key() -> Seq<char> {
    seq!['h', 'a', 's', 'h']
}

/// `content`, the member of a transaction reply that holds the encoded
/// transaction.
pub open spec fn content_key() -> Seq<char> {
    seq!['c', 'o', 'n', 't', 'e', 'n', 't']
}

/// Cuts the first and the last character off a rendering (the quotes of a
/// JSON string).
pub fn strip_enclosing(text: &str) -> (inner: String)
    requires
        enclosed(text@),
    ensures
        inner@ == inner_text(text@),
{
    let n: usize = text.unicode_len();
    text.substring_char(1, n - 1).to_owned()
}

/// Cuts the first and the last character off a rendering, or gives `None`
/// when it has fewer than two characters or a non-ASCII first or last one.
pub fn checked_strip_enclosing(text: &str) -> (inner: Option<String>)
    ensures
        match inner {
            Some(s) => enclosed(text@) && s@ == inner_text(text@),
            None => !enclosed(text@),
        },
{
    let n: usize = text.unicode_len();
    if n < 2 {
        return None;
    }
    let first = text.get_char(0);
    let last = text.get_char(n - 1);
    if (first as u32) < 128 && (last as u32) < 128 {
        Some(strip_enclosing(text))
    } else {
        None
    }
}

/// The text of member `key` of a JSON reply, with its enclosing quotes cut
/// off.
pub fn reply_field_text(response: &str, key: &str) -> (field: Option<String>)
    ensures
        field.deep_view() == reply_field(response@, key@),
{
    match json_member(response, key) {
        Some(text) => checked_strip_enclosing(text.as_str()),
        None => None,
    }
}

/// The hash of a sent transaction, read from the node's reply.
pub fn tx_hash_from_reply(response: &str) -> (hash: Option<String>)
    ensures
        hash.deep_view() == reply_field(response@, hash_key()),
{
    proof {
        reveal_strlit("hash");
        assert("hash"@ =~= hash_key());
    }
    reply_field_text(response, "hash")
}

/// What a transaction reply carries: the payload of the transaction whose
/// encoding is the reply's `content`, as `Some(..)` of the decoded
/// transaction; `None` when the reply or the encoding cannot be read.
pub open spec fn reply_payload(response: Seq<char>) -> Option<Option<Seq<u8>>> {
    match reply_field(response, content_key()) {
        Some(content) => unverified_tx_payload(content),
        None => None,
    }
}

/// Reads the payload of the transaction that a transaction reply describes.
pub fn payload_from_reply(response: &str) -> (payload: Option<Option<Vec<u8>>>)
    ensures
        payload_view(payload) == reply_payload(response@),
{
    proof {
        reveal_strlit("content");
        assert("content"@ =~= content_key());
    }
    match reply_field_text(response, "content") {
        Some(content) => decode_unverified_transaction(content.as_str()),
        None => None,
    }
}

/// The text of a reply member is its rendering with exactly the first and
/// the last character cut off, whatever the member and however long the
/// rendering; a rendering that cannot be cut gives nothing.
pub proof fn law_reply_field_cuts_one_character_each_side(
    response: Seq<char>,
    key: Seq<char>,
    text: Seq<char>,
)
    requires
        json_member_text(response, key) == Some(text),
    ensures
        (text.len() >= 2 && text[0] <= '\u{7f}' && text[text.len() - 1] <= '\u{7f}') ==> reply_field(
            response,
            key,
        ) == Some(text.subrange(1, text.len() - 1)),
        !(text.len() >= 2 && text[0] <= '\u{7f}' && text[text.len() - 1] <= '\u{7f}')
            ==> reply_field(response, key) is None,
{
}

} // verus!
