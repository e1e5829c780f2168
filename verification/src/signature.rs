use vstd::prelude::*;
use vstd::utf8::encode_utf8;

use hmac::{Hmac, Mac};
use sha2::Sha256;

use crate::error::ServiceError;
use crate::hex_text::{encode_hex, hex_lower, lemma_hex_lower_shape};

verus! {

/// The HMAC-SHA256 tag of `message` under `key`, as the `hmac` crate computes
/// it with `Hmac<Sha256>`.
pub uninterp spec fn hmac_sha256(key: Seq<u8>, message: Seq<u8>) -> Seq<u8>;

/// HMAC-SHA256 of `message` under `key` (`hmac::Hmac<sha2::Sha256>`:
/// `new_varkey`, `input`, `result().code()`).
///
/// Trusted: the tag is the named function of the key and message bytes, and
/// it has 32 bytes, the output size of SHA-256. `new_varkey` accepts keys of
/// every length (longer keys are hashed first), so the `expect` never fires.
/// Nothing is said of the tag's value.
#[verifier::external_body]
fn hmac_sha256_tag(key: &[u8], message: &[u8]) -> (tag: Vec<u8>)
    ensures
        tag@ == hmac_sha256(key@, message@),
        tag@.len() == 32,
{
    let mut mac = Hmac::<Sha256>::new_varkey(key).expect("Expect corrent format.");
    mac.input(message);
    mac.result().code().to_vec()
}

/// The signature a client must send for `message` under the user's `key`:
/// the lowercase hexadecimal of the HMAC-SHA256 tag of the message's UTF-8
/// bytes under the key's UTF-8 bytes.
pub open spec fn expected_signature(key: Seq<char>, message: Seq<char>) -> Seq<char> {
    hex_lower(hmac_sha256(encode_utf8(key), encode_utf8(message)))
}

/// The answer of a signature check: accepted exactly when `signature` is the
/// expected one, refused as unauthorized otherwise.
pub open spec fn signature_verdict(
    key: Seq<char>,
    message: Seq<char>,
    signature: Seq<char>,
) -> Result<bool, ServiceError> {
    if expected_signature(key, message) == signature {
        Ok(true)
    } else {
        Err(ServiceError::Unauthorized)
    }
}

/// Checks the HMAC signature of a request message. The expected signature
/// is 64 lowercase hexadecimal characters, so a signature of any other length
/// is refused.
pub fn verify_sig(key: &str, msg: &str, sig: &str) -> (r: Result<bool, ServiceError>)
    ensures
        r == signature_verdict(key@, msg@, sig@),
        expected_signature(key@, msg@).len() == 64,
        forall|i: int|
            0 <= i < 64 ==> {
                let c = #[trigger] expected_signature(key@, msg@)[i];
                ('0' <= c <= '9') || ('a' <= c <= 'f')
            },
        sig@.len() != 64 ==> r == Err::<bool, ServiceError>(ServiceError::Unauthorized),
{
    let tag = hmac_sha256_tag(key.as_bytes(), msg.as_bytes());
    proof {
        lemma_hex_lower_shape(tag@);
    }
    let sig_get = encode_hex(tag.as_slice());
    let sig_sent = sig.to_owned();
    if sig_get == sig_sent {
        Ok(true)
    } else {
        Err(ServiceError::Unauthorized)
    }
}

/// The signature check of a transfer request, which accepts every request.
pub fn verify_sig_transfer() -> (r: Result<bool, ServiceError>)
    ensures
        r == Ok::<bool, ServiceError>(true),
{
    Ok(true)
}

/// A request signed with the user's key is accepted, and a check never
/// answers `Ok(false)`: a refusal is always `Unauthorized`.
pub proof fn lemma_signed_request_accepted(key: Seq<char>, message: Seq<char>, signature: Seq<char>)
    ensures
        signature == expected_signature(key, message) ==> signature_verdict(key, message, signature)
            == Ok::<bool, ServiceError>(true),
        signature != expected_signature(key, message) ==> signature_verdict(
            key,
            message,
            signature,
        ) == Err::<bool, ServiceError>(ServiceError::Unauthorized),
        signature_verdict(key, message, signature) != Ok::<bool, ServiceError>(false),
{
}

/// The signature of a message is taken over all of its bytes: it is the
/// lowercase hexadecimal of the HMAC-SHA256 tag of the whole UTF-8 encoding of
/// the message under the whole UTF-8 encoding of the key, whatever their
/// lengths.
pub proof fn law_signature_covers_whole_message(key: Seq<char>, message: Seq<char>)
    ensures
        expected_signature(key, message) == hex_lower(
            hmac_sha256(encode_utf8(key), encode_utf8(message)),
        ),
        signature_verdict(key, message, hex_lower(hmac_sha256(encode_utf8(key), encode_utf8(message))))
            == Ok::<bool, ServiceError>(true),
{
}

} // verus!
