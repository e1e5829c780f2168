use evidence_store::error::ServiceError;
use evidence_store::password::{
    hash_password_outcome, secret_key_or_default, verify_password_outcome, PASSWORD_SALT,
};

#[test]
fn default_secret_key_repeats_0123_eight_times() {
    assert_eq!(secret_key_or_default(None), "0123".repeat(8));
    assert_eq!(secret_key_or_default(Some("s3cret".to_string())), "s3cret");
}

#[test]
fn password_salt() {
    assert_eq!(PASSWORD_SALT, "test_salt");
}

#[test]
fn hashing_failure_is_an_internal_error() {
    assert_eq!(hash_password_outcome(Some("h".to_string())), Ok("h".to_string()));
    assert_eq!(hash_password_outcome(None), Err(ServiceError::InternalServerError));
}

#[test]
fn verification_failure_is_unauthorized() {
    assert_eq!(verify_password_outcome(Some(true)), Ok(true));
    assert_eq!(verify_password_outcome(Some(false)), Ok(false));
    assert_eq!(verify_password_outcome(None), Err(ServiceError::Unauthorized));
}
