//! Password hashing and checking, delegated to bcrypt.

use vstd::prelude::*;

use crate::error::ApiError;

verus! {

/// Whether bcrypt's check of `password` against `hash` succeeds: a pure
/// function of the two strings.
pub uninterp spec fn bcrypt_check_of(password: Seq<char>, hash: Seq<char>) -> bool;

/// Relies on `bcrypt::hash` with the default cost: the salt is drawn fresh,
/// so nothing links two calls, but the produced hash always checks against
/// the password that produced it, and is always the 60-character `$2b$`
/// form.
#[verifier::external_body]
fn bcrypt_hash(password: &str) -> (r: Result<String, String>)
    ensures
        r matches Ok(h) ==> bcrypt_check_of(password@, h@) && h@.len() == 60 && h@.subrange(0, 4)
            == "$2b$"@,
{
    match bcrypt::hash(password, bcrypt::DEFAULT_COST) {
        Ok(h) => Ok(h),
        Err(e) => Err(e.to_string()),
    }
}

/// Relies on `bcrypt::verify`: whether the password matches the hash, a
/// pure function of its two arguments; it fails only on a hash it cannot
/// parse, so when the check passes — which entails the hash parsed — it
/// returns `Ok(true)`.
#[verifier::external_body]
fn bcrypt_verify(password: &str, hash: &str) -> (r: Result<bool, String>)
    ensures
        match r {
            Ok(b) => b == bcrypt_check_of(password@, hash@),
            Err(_) => !bcrypt_check_of(password@, hash@),
        },
{
    match bcrypt::verify(password, hash) {
        Ok(b) => Ok(b),
        Err(e) => Err(e.to_string()),
    }
}

/// Hash a password for storage; the result is a 60-character `$2b$` hash
/// that checks against the password.
pub fn encode_password(password: &str) -> (r: Result<String, ApiError>)
    ensures
        r matches Ok(h) ==> bcrypt_check_of(password@, h@) && h@.len() == 60 && h@.subrange(0, 4)
            == "$2b$"@,
        r matches Err(e) ==> e matches ApiError::Bcrpt(_),
{
    match bcrypt_hash(password) {
        Ok(h) => Ok(h),
        Err(e) => Err(ApiError::Bcrpt(e)),
    }
}

/// Check a password against a stored hash; a passing check is always
/// reported as `Ok(true)`.
pub fn verify_password(password: &str, hash: &str) -> (r: Result<bool, ApiError>)
    ensures
        r matches Ok(b) ==> b == bcrypt_check_of(password@, hash@),
        bcrypt_check_of(password@, hash@) ==> r == Ok::<bool, ApiError>(true),
        r matches Err(e) ==> e matches ApiError::Bcrpt(_),
{
    match bcrypt_verify(password, hash) {
        Ok(b) => Ok(b),
        Err(e) => Err(ApiError::Bcrpt(e)),
    }
}

} // verus!
