//! The password hasher: one-way, salted hashing and verification, run off
//! the request-handling path by the surrounding application.

use vstd::prelude::*;

use crate::data_stores::UserStoreError;

verus! {

/// What argon2 verification decides for a stored hash string and a candidate
/// password: `None` when the stored string does not parse as a hash,
/// otherwise whether the candidate matches. A function of the two strings
/// alone.
pub uninterp spec fn argon2_check_of(hash: Seq<char>, password: Seq<char>) -> Option<bool>;

/// Relies on argon2::Argon2::hash_password with a fresh random salt: the
/// produced hash string verifies against the password it was computed from
/// (the crate's hash/verify round trip). Nothing else is assumed of the
/// value: the fresh salt makes it unpredictable.
#[verifier::external_body]
fn argon2_hash(password: &str) -> (r: Option<String>)
    ensures
        r matches Some(h) ==> argon2_check_of(h@, password@) == Some(true),
{
    let salt = argon2::password_hash::SaltString::generate(&mut argon2::password_hash::rand_core::OsRng);
    let params = argon2::Params::new(15000, 2, 1, None).ok()?;
    let hasher = argon2::Argon2::new(argon2::Algorithm::Argon2id, argon2::Version::V0x13, params);
    match argon2::PasswordHasher::hash_password(&hasher, password.as_bytes(), &salt) {
        Ok(h) => Some(h.to_string()),
        Err(_) => None,
    }
}

/// Relies on argon2::Argon2::verify_password, with the parameters read back
/// from the stored hash string: a mismatched candidate and an unreadable
/// stored hash are told apart.
#[verifier::external_body]
fn argon2_verify(expected_password_hash: &str, password_candidate: &str) -> (r: Result<bool, ()>)
    ensures
        match r {
            Ok(b) => argon2_check_of(expected_password_hash@, password_candidate@) == Some(b),
            Err(()) => argon2_check_of(expected_password_hash@, password_candidate@) is None,
        },
{
    let parsed = match argon2::PasswordHash::new(expected_password_hash) {
        Ok(p) => p,
        Err(_) => return Err(()),
    };
    match argon2::PasswordVerifier::verify_password(
        &argon2::Argon2::default(),
        password_candidate.as_bytes(),
        &parsed,
    ) {
        Ok(()) => Ok(true),
        Err(argon2::password_hash::Error::Password) => Ok(false),
        Err(_) => Err(()),
    }
}

/// Hashes a fresh password, salted per call. The result verifies against the
/// password it was computed from; any failure is the unexpected category.
pub fn compute_password_hash(password: String) -> (r: Result<String, UserStoreError>)
    ensures
        r matches Ok(h) ==> argon2_check_of(h@, password@) == Some(true),
        r matches Err(e) ==> e == UserStoreError::UnexpectedError,
{
    match argon2_hash(password.as_str()) {
        Some(h) => Ok(h),
        None => Err(UserStoreError::UnexpectedError),
    }
}

/// Verifies a candidate against a stored hash: a mismatch is an incorrect
/// credential, an unreadable stored hash (corruption) is the unexpected
/// category, never an incorrect credential.
pub fn verify_password_hash(expected_password_hash: String, password_candidate: String) -> (r:
    Result<(), UserStoreError>)
    ensures
        ({
            let outcome = argon2_check_of(expected_password_hash@, password_candidate@);
            &&& (outcome == Some(true) <==> r matches Ok(()))
            &&& (outcome == Some(false) <==> (r matches Err(e)
                && e == UserStoreError::InvalidCredentials))
            &&& (outcome is None <==> (r matches Err(e) && e == UserStoreError::UnexpectedError))
        }),
{
    match argon2_verify(expected_password_hash.as_str(), password_candidate.as_str()) {
        Ok(true) => Ok(()),
        Ok(false) => Err(UserStoreError::InvalidCredentials),
        Err(()) => Err(UserStoreError::UnexpectedError),
    }
}

} // verus!
