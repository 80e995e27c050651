//! Hashing and checking of passwords, PINs and pickup codes with bcrypt.

use crate::error::{fails_with, provider_error, AppError};
use vstd::prelude::*;

verus! {

/// What `bcrypt::verify(value, hash)` answers: `Some(b)` when `hash` is a
/// well-formed bcrypt hash (then `b` says whether `value` matches it), `None`
/// when it fails.
pub uninterp spec fn bcrypt_verdict(value: Seq<char>, hash: Seq<char>) -> Option<bool>;

/// bcrypt's `verify`: a function of the value and the hash alone (named
/// `bcrypt_verdict`); the error it fails with is left unsaid.
#[verifier::external_body]
fn bcrypt_verify(value: &str, hash: &str) -> (r: Result<bool, bcrypt::BcryptError>)
    ensures
        match bcrypt_verdict(value@, hash@) {
            Some(b) => r matches Ok(x) && x == b,
            None => r is Err,
        },
{
    bcrypt::verify(value, hash)
}

/// bcrypt's `hash` at `DEFAULT_COST`: the salt is random, so nothing is said
/// of the text itself; what its source shows is that `verify` accepts the value
/// against every hash it returns (verify recomputes the hash with the salt and
/// cost that the returned text carries).
#[verifier::external_body]
fn bcrypt_hash(value: &str) -> (r: Result<String, bcrypt::BcryptError>)
    ensures
        r matches Ok(h) ==> bcrypt_verdict(value@, h@) == Some(true),
{
    bcrypt::hash(value, bcrypt::DEFAULT_COST)
}

/// Hashes a password, PIN or pickup code.
pub fn hash_value(value: String) -> (r: Result<String, AppError>)
    ensures
        r matches Ok(h) ==> bcrypt_verdict(value@, h@) == Some(true),
        r matches Err(e) ==> e is HashError,
{
    match bcrypt_hash(value.as_str()) {
        Ok(h) => Ok(h),
        Err(e) => Err(AppError::HashError(e)),
    }
}

/// Checks a password, PIN or pickup code against its stored hash.
pub fn verify_value(value: String, hash: String) -> (r: Result<bool, AppError>)
    ensures
        match bcrypt_verdict(value@, hash@) {
            Some(b) => r matches Ok(x) && x == b,
            None => r matches Err(e) && e is HashError,
        },
{
    match bcrypt_verify(value.as_str(), hash.as_str()) {
        Ok(b) => Ok(b),
        Err(e) => Err(AppError::HashError(e)),
    }
}

/// The PIN check the payment handlers make before moving money: no stored
/// hash is `PIN_NOT_SET`, a PIN that does not match is `InvalidCredentials`.
pub fn check_stored_pin(pin_hash: Option<String>, pin: String) -> (r: Result<(), AppError>)
    ensures
        pin_hash is None ==> fails_with(r, "PIN_NOT_SET"@),
        pin_hash matches Some(h) ==> match bcrypt_verdict(pin@, h@) {
            Some(true) => r is Ok,
            Some(false) => r matches Err(AppError::InvalidCredentials),
            None => r matches Err(e) && e is HashError,
        },
{
    match pin_hash {
        None => Err(provider_error("PIN_NOT_SET")),
        Some(h) => {
            let ok = verify_value(pin, h)?;
            if ok {
                Ok(())
            } else {
                Err(AppError::InvalidCredentials)
            }
        },
    }
}

/// The credential check of the login handlers: an unknown account and a
/// password that does not match are both `InvalidCredentials`.
pub fn check_password(password_hash: Option<String>, password: String) -> (r: Result<(), AppError>)
    ensures
        password_hash is None ==> r matches Err(AppError::InvalidCredentials),
        password_hash matches Some(h) ==> match bcrypt_verdict(password@, h@) {
            Some(true) => r is Ok,
            Some(false) => r matches Err(AppError::InvalidCredentials),
            None => r matches Err(e) && e is HashError,
        },
{
    match password_hash {
        None => Err(AppError::InvalidCredentials),
        Some(h) => {
            let ok = verify_value(password, h)?;
            if ok {
                Ok(())
            } else {
                Err(AppError::InvalidCredentials)
            }
        },
    }
}

} // verus!
