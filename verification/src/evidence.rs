use vstd::prelude::*;
use vstd::utf8::*;

use crate::message::{evidence_field, timestamp_field, upload_text};
use crate::decimal::decimal_text;
use crate::utf8_facts::{
    ampersand_byte, lemma_boundary_after_prefix, lemma_encode_utf8_concat,
    lemma_encode_without_ampersand,
};

verus! {

/// Byte offset where the evidence starts in a stored payload: right after
/// `evidence=`.
pub open spec fn evidence_start() -> int {
    9
}

/// Byte offset of the first `&` in `bytes`, or the length when there is none.
pub open spec fn first_ampersand(bytes: Seq<u8>) -> int
    decreases bytes.len(),
{
    if bytes.len() == 0 {
        0
    } else if bytes[0] == ampersand_byte() {
        0
    } else {
        1 + first_ampersand(bytes.drop_first())
    }
}

/// A payload from which evidence can be read: valid UTF-8, with the
/// evidence start at a character boundary and no `&` before it.
pub open spec fn evidence_readable(data: Seq<u8>) -> bool {
    &&& valid_utf8(data)
    &&& evidence_start() <= first_ampersand(data)
    &&& is_char_boundary(data, evidence_start())
}

/// The evidence held by a payload: the text between the evidence start and
/// the first `&` (or the end).
pub open spec fn evidence_of(data: Seq<u8>) -> Seq<char> {
    decode_utf8(data.subrange(evidence_start(), first_ampersand(data)))
}

proof fn lemma_first_ampersand_at(bytes: Seq<u8>, k: int)
    requires
        0 <= k <= bytes.len(),
        k < bytes.len() ==> bytes[k] == ampersand_byte(),
        forall|j: int| 0 <= j < k ==> bytes[j] != ampersand_byte(),
    ensures
        first_ampersand(bytes) == k,
    decreases k,
{
    if k > 0 {
        let rest = bytes.drop_first();
        assert(bytes[0] != ampersand_byte());
        assert forall|j: int| 0 <= j < k - 1 implies rest[j] != ampersand_byte() by {
            assert(rest[j] == bytes[j + 1]);
        }
        lemma_first_ampersand_at(rest, k - 1);
    }
}

/// Decodes bytes as UTF-8 with `std::str::from_utf8`.
///
/// Trusted: std documents that `from_utf8` succeeds exactly on valid UTF-8
/// and that the returned `str` holds the same bytes.
#[verifier::external_body]
fn utf8_str(bytes: &[u8]) -> (s: Option<&str>)
    ensures
        match s {
            Some(text) => encode_utf8(text@) == bytes@,
            None => !valid_utf8(bytes@),
        },
{
    std::str::from_utf8(bytes).ok()
}

fn ampersand_offset(data: &[u8]) -> (k: usize)
    ensures
        k <= data@.len(),
        k < data@.len() ==> data@[k as int] == ampersand_byte(),
        k as int == first_ampersand(data@),
{
    let mut i: usize = 0;
    while i < data.len()
        invariant
            i <= data@.len(),
            forall|j: int| 0 <= j < i ==> data@[j] != ampersand_byte(),
        decreases data@.len() - i,
    {
        if data[i] == 0x26 {
            proof {
                lemma_first_ampersand_at(data@, i as int);
            }
            return i;
        }
        i = i + 1;
    }
    proof {
        lemma_first_ampersand_at(data@, i as int);
    }
    i
}

/// Reads the evidence out of the payload of a stored transaction: the text
/// from byte 9 (after `evidence=`) up to the first `&`.
pub fn evidence_from_payload(data: &[u8]) -> (text: String)
    requires
        evidence_readable(data@),
    ensures
        text@ == evidence_of(data@),
{
    let end: usize = ampersand_offset(data);
    let piece = &data[9..end];
    proof {
        let bytes = data@;
        let rest = bytes.subrange(9, bytes.len() as int);
        valid_utf8_split(bytes, 9);
        is_char_boundary_start_end_of_seq(rest);
        if end < bytes.len() {
            assert(rest[end - 9] == bytes[end as int]);
            assert(bytes[end as int] == ampersand_byte());
            assert(!is_continuation_byte(rest[end - 9]));
            is_char_boundary_iff_not_is_continuation_byte(rest, end - 9);
        } else {
            assert(end - 9 == rest.len());
        }
        assert(valid_utf8(rest));
        assert(is_char_boundary(rest, end - 9));
        valid_utf8_split(rest, end - 9);
        assert(rest.subrange(0, end - 9) =~= piece@);
    }
    match utf8_str(piece) {
        Some(s) => {
            proof {
                encode_utf8_decode_utf8(s@);
            }
            s.to_owned()
        },
        None => {
            proof {
                assert(false);
            }
            String::new()
        },
    }
}

/// Reads the evidence out of a payload, or gives `None` on a payload that is
/// not valid UTF-8, has a `&` within its first 9 bytes, or splits a
/// character at byte 9.
pub fn checked_evidence_from_payload(data: &[u8]) -> (text: Option<String>)
    ensures
        match text {
            Some(t) => evidence_readable(data@) && t@ == evidence_of(data@),
            None => !evidence_readable(data@),
        },
{
    let whole = match utf8_str(data) {
        Some(s) => s,
        None => {
            return None;
        },
    };
    proof {
        encode_utf8_valid_utf8(whole@);
    }
    let end: usize = ampersand_offset(data);
    if end < 9 {
        return None;
    }
    if !whole.is_char_boundary(9) {
        return None;
    }
    Some(evidence_from_payload(data))
}

/// What a query reads back is what an upload stored: the payload of an
/// upload message gives back the uploaded evidence, for evidence without `&`.
pub proof fn lemma_evidence_round_trip(evidence: Seq<char>, timestamp: int)
    requires
        !evidence.contains('&'),
    ensures
        evidence_readable(encode_utf8(upload_text(evidence, timestamp))),
        evidence_of(encode_utf8(upload_text(evidence, timestamp))) == evidence,
{
    let f = evidence_field();
    let t = timestamp_field() + decimal_text(timestamp);
    let msg = upload_text(evidence, timestamp);
    assert(msg =~= f + (evidence + t));
    let data = encode_utf8(msg);
    let ef = encode_utf8(f);
    let ee = encode_utf8(evidence);
    let et = encode_utf8(t);
    lemma_encode_utf8_concat(f, evidence + t);
    lemma_encode_utf8_concat(evidence, t);
    assert(data =~= ef + (ee + et));

    // `evidence=` is nine ASCII bytes, none of them `&`.
    assert(is_ascii_chars(f));
    is_ascii_chars_encode_utf8(f);
    assert(!f.contains('&')) by {
        if f.contains('&') {
            let j: int = choose|j: int| 0 <= j < f.len() && f[j] == '&';
        }
    }
    lemma_encode_without_ampersand(f);
    lemma_encode_without_ampersand(evidence);

    // the timestamp part starts with the `&` byte.
    assert(t[0] == '&');
    assert(t.len() > 0);
    encode_utf8_first_scalar(t);
    assert(('&' as u32) == 0x26);
    assert((0x26u32 & 0x7F) as u8 == 0x26u8) by (bit_vector);
    assert(et[0] == ampersand_byte());

    let k: int = 9 + ee.len() as int;
    assert forall|j: int| 0 <= j < k implies data[j] != ampersand_byte() by {
        if j < 9 {
            assert(data[j] == ef[j]);
        } else {
            assert(data[j] == ee[j - 9]);
        }
    }
    assert(data[k] == et[0]);
    lemma_first_ampersand_at(data, k);

    lemma_boundary_after_prefix(f, evidence + t);
    encode_utf8_valid_utf8(msg);
    assert(data.subrange(9, k) =~= ee);
    encode_utf8_decode_utf8(evidence);
}

} // verus!
