use vstd::prelude::*;

use crate::error::ServiceError;

verus! {

/// Salt used when hashing passwords.
pub const PASSWORD_SALT: &'static str = "test_salt";

/// `0123` repeated `n` times.
pub open spec fn repeated_default(n: nat) -> Seq<char>
    decreases n,
{
    if n == 0 {
        Seq::<char>::empty()
    } else {
        repeated_default((n - 1) as nat) + seq!['0', '1', '2', '3']
    }
}

/// The secret key for password hashing: the configured one, or `0123`
/// repeated eight times when none is configured.
pub fn secret_key_or_default(configured: Option<String>) -> (key: String)
    ensures
        key@ == match configured {
            Some(s) => s@,
            None => repeated_default(8),
        },
{
    match configured {
        Some(s) => s,
        None => {
            let mut key = String::new();
            let mut i: usize = 0;
            while i < 8
                invariant
                    i <= 8,
                    key@ == repeated_default(i as nat),
                decreases 8 - i,
            {
                proof {
                    reveal_strlit("0123");
                }
                key.append("0123");
                i = i + 1;
            }
            key
        },
    }
}

/// The answer of password hashing from the hasher's outcome: the hash, or an
/// internal server error when hashing failed.
pub fn hash_password_outcome(hashed: Option<String>) -> (r: Result<String, ServiceError>)
    ensures
        match hashed {
            Some(h) => r == Ok::<String, ServiceError>(h),
            None => r == Err::<String, ServiceError>(ServiceError::InternalServerError),
        },
{
    match hashed {
        Some(h) => Ok(h),
        None => Err(ServiceError::InternalServerError),
    }
}

/// The answer of password verification from the verifier's outcome: whether
/// the password matches, or unauthorized when verification failed.
pub fn verify_password_outcome(verified: Option<bool>) -> (r: Result<bool, ServiceError>)
    ensures
        match verified {
            Some(b) => r == Ok::<bool, ServiceError>(b),
            None => r == Err::<bool, ServiceError>(ServiceError::Unauthorized),
        },
{
    match verified {
        Some(b) => Ok(b),
        None => Err(ServiceError::Unauthorized),
    }
}

} // verus!
