use evidence_store::error::ServiceError;
use evidence_store::signature::{verify_sig, verify_sig_transfer};
use hmac::{Hmac, Mac};
use sha2::Sha256;

const FOX: &str = "The quick brown fox jumps over the lazy dog";
const FOX_TAG: &str = "f7bc83f430538424b13298e6aa6fb143ef4d59a14946175997479dbc2d1a3cd8";

#[test]
fn verify_sig_accepts_the_hmac_sha256_hex_signature() {
    assert_eq!(verify_sig("key", FOX, FOX_TAG), Ok(true));
}

#[test]
fn verify_sig_refuses_a_wrong_signature() {
    let mut wrong = String::from(FOX_TAG);
    wrong.replace_range(0..1, "e");
    assert_eq!(verify_sig("key", FOX, &wrong), Err(ServiceError::Unauthorized));
    assert_eq!(verify_sig("other", FOX, FOX_TAG), Err(ServiceError::Unauthorized));
    assert_eq!(verify_sig("key", "other", FOX_TAG), Err(ServiceError::Unauthorized));
}

#[test]
fn verify_sig_refuses_uppercase_hex() {
    assert_eq!(
        verify_sig("key", FOX, &FOX_TAG.to_uppercase()),
        Err(ServiceError::Unauthorized)
    );
}

#[test]
fn verify_sig_uses_the_utf8_bytes_of_key_and_message() {
    let key = "clé";
    let msg = "évidence";
    let mut mac = Hmac::<Sha256>::new_varkey(key.as_bytes()).unwrap();
    mac.input(msg.as_bytes());
    let sig = hex::encode(mac.result().code());
    assert_eq!(verify_sig(key, msg, &sig), Ok(true));
}

#[test]
fn verify_sig_with_a_long_key() {
    let key = "k".repeat(100);
    let mut mac = Hmac::<Sha256>::new_varkey(key.as_bytes()).unwrap();
    mac.input(b"m");
    let sig = hex::encode(mac.result().code());
    assert_eq!(verify_sig(&key, "m", &sig), Ok(true));
}

#[test]
fn verify_sig_transfer_accepts() {
    assert_eq!(verify_sig_transfer(), Ok(true));
}

#[test]
fn verify_sig_refuses_signatures_of_the_wrong_length() {
    assert_eq!(verify_sig("key", FOX, ""), Err(ServiceError::Unauthorized));
    assert_eq!(verify_sig("key", FOX, &FOX_TAG[..63]), Err(ServiceError::Unauthorized));
    assert_eq!(FOX_TAG.len(), 64);
}
