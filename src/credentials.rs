//! Password hashing and verification, on top of Argon2.

use vstd::prelude::*;
use argon2::password_hash::rand_core::OsRng;
use argon2::password_hash::{PasswordHash, PasswordHasher, PasswordVerifier, SaltString};
use argon2::Argon2;

verus! {

/// Whether Argon2 (default parameters) accepts `password` against the
/// self-describing hash string `stored`; false when `stored` is malformed.
pub uninterp spec fn password_matches(password: Seq<char>, stored: Seq<char>) -> bool;

#[verifier::external_type_specification]
#[verifier::external_body]
pub struct ExPasswordHashError(argon2::password_hash::Error);

/// Relies on `SaltString::generate` (with `OsRng`) and
/// `PasswordHasher::hash_password` of `Argon2::default()`: on success the PHC
/// string it renders carries its own salt and parameters, so that
/// `PasswordVerifier::verify_password` accepts the same password against it.
#[verifier::external_body]
fn argon2_hash(password: &str) -> (r: Result<String, argon2::password_hash::Error>)
    ensures
        r is Ok ==> password_matches(password@, r->Ok_0@),
{
    let salt = SaltString::generate(&mut OsRng);
    match Argon2::default().hash_password(password.as_bytes(), &salt) {
        Ok(h) => Ok(h.to_string()),
        Err(e) => Err(e),
    }
}

/// Relies on `PasswordHash::new` and `PasswordVerifier::verify_password` of
/// `Argon2::default()`: a stored string that does not parse is a mismatch.
#[verifier::external_body]
fn argon2_verify(password: &str, stored: &str) -> (r: bool)
    ensures
        r == password_matches(password@, stored@),
{
    match PasswordHash::new(stored) {
        Ok(parsed) => Argon2::default().verify_password(password.as_bytes(), &parsed).is_ok(),
        Err(_) => false,
    }
}

/// Why a password could not be hashed.
#[derive(Debug, Clone, Copy, PartialEq, Eq, Structural)]
pub enum CredentialError {
    /// The hashing primitive failed (for instance, the entropy source).
    HashingFailed,
}

/// Hashes `password` with a fresh random salt. Whatever string comes back,
/// `verify_password` accepts `password` against it.
pub fn hash_password(password: &str) -> (r: Result<String, CredentialError>)
    ensures
        r is Ok ==> password_matches(password@, r->Ok_0@),
        r is Err ==> r->Err_0 == CredentialError::HashingFailed,
{
    match argon2_hash(password) {
        Ok(h) => Ok(h),
        Err(_) => Err(CredentialError::HashingFailed),
    }
}

/// Checks `password` against a stored hash string; a malformed stored hash
/// yields `false`, never an error.
pub fn verify_password(password: &str, hashed: &str) -> (r: bool)
    ensures
        r == password_matches(password@, hashed@),
{
    argon2_verify(password, hashed)
}

} // verus!
