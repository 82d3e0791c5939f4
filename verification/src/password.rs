//! Password hashing: a salted, memory-hard, one-way hash of a password, and
//! the check of a password against a stored hash.
//!
//! A stored hash is a self-describing string: it names the algorithm and
//! holds the cost parameters, the salt and the digest. Checking a password
//! goes by what the string holds, so a hash made with other parameters than
//! today's is still checked rightly. The hash function is Argon2id from the
//! `argon2` crate; it is slow on purpose, and callers that serve requests
//! should run it where it does not hold them up.

use crate::system::random_bytes;
use vstd::prelude::*;

verus! {

/// The number of random bytes in a salt.
pub const SALT_BYTES: usize = 16;

/// The hash string that `argon2::Argon2::default().hash_password` makes of
/// `password` with the salt `salt`; nothing where it refuses the password.
pub uninterp spec fn salted_hash(password: Seq<u8>, salt: Seq<u8>) -> Option<Seq<char>>;

/// What `argon2::Argon2::default().verify_password` finds of `password`
/// against the stored hash string `hash`: whether the password is the one
/// the hash was made of; nothing where the hash string cannot be read or
/// used.
pub uninterp spec fn stored_hash_verdict(hash: Seq<char>, password: Seq<u8>) -> Option<bool>;

/// `argon2::PasswordHasher::hash_password` on `Argon2::default()`, with the
/// salt that `password_hash::SaltString::encode_b64` makes of `salt`, and the
/// hash written out with `to_string`. The string depends on the password and
/// the salt alone; it is what `salted_hash` names. What is claimed of it
/// besides: the password it was made of verifies against it.
#[verifier::external_body]
fn argon2_hash(password: &[u8], salt: &[u8; 16]) -> (hash: Option<String>)
    ensures
        match hash {
            Some(h) => salted_hash(password@, salt@) == Some(h@) && stored_hash_verdict(
                h@,
                password@,
            ) == Some(true),
            None => salted_hash(password@, salt@) is None,
        },
{
    let salt = argon2::password_hash::SaltString::encode_b64(salt).ok()?;
    let hasher = argon2::Argon2::default();
    let hash = argon2::PasswordHasher::hash_password(&hasher, password, &salt).ok()?;
    Some(hash.to_string())
}

/// `argon2::PasswordVerifier::verify_password` on `Argon2::default()`, with
/// the hash that `argon2::PasswordHash::new` parses from `hash`. The outcome
/// depends on the hash string and the password alone; it is what
/// `stored_hash_verdict` names. A mismatch is the error `Password`; a hash
/// string that does not parse, and every other error, count as unreadable.
#[verifier::external_body]
fn argon2_verify(hash: &str, password: &[u8]) -> (verdict: Option<bool>)
    ensures
        verdict == stored_hash_verdict(hash@, password@),
{
    let parsed = argon2::PasswordHash::new(hash).ok()?;
    let hasher = argon2::Argon2::default();
    match argon2::PasswordVerifier::verify_password(&hasher, password, &parsed) {
        Ok(()) => Some(true),
        Err(argon2::password_hash::Error::Password) => Some(false),
        Err(_) => None,
    }
}

/// Why a password was not accepted. The two cases are told apart for the
/// log; the outside is told of both that the credentials do not match.
#[derive(Clone, Copy, Debug, PartialEq, Eq, Structural)]
pub enum PasswordError {
    /// The password is not the one the stored hash was made of.
    Mismatch,
    /// The stored hash cannot be read or used.
    MalformedStoredHash,
}

/// What a verdict on a stored hash means for the password.
pub open spec fn password_outcome(verdict: Option<bool>) -> Result<(), PasswordError> {
    match verdict {
        Some(true) => Ok(()),
        Some(false) => Err(PasswordError::Mismatch),
        None => Err(PasswordError::MalformedStoredHash),
    }
}

/// What a verdict on a stored hash means for the password.
pub fn judge(verdict: Option<bool>) -> (outcome: Result<(), PasswordError>)
    ensures
        outcome == password_outcome(verdict),
{
    match verdict {
        Some(true) => Ok(()),
        Some(false) => Err(PasswordError::Mismatch),
        None => Err(PasswordError::MalformedStoredHash),
    }
}

/// Hashes `password` with the given salt. The password verifies against the
/// hash that comes back.
pub fn hash_with_salt(password: &[u8], salt: &[u8; 16]) -> (hash: Option<String>)
    ensures
        match hash {
            Some(h) => salted_hash(password@, salt@) == Some(h@) && stored_hash_verdict(
                h@,
                password@,
            ) == Some(true),
            None => salted_hash(password@, salt@) is None,
        },
{
    argon2_hash(password, salt)
}

/// Hashes `password` with a fresh random salt. The password verifies against
/// the hash that comes back. There is no hash where the random source gives
/// no salt or the hash function refuses the password.
pub fn hash(password: &[u8]) -> (hash: Option<String>)
    ensures
        hash matches Some(h) ==> stored_hash_verdict(h@, password@) == Some(true) && exists|
            salt: Seq<u8>,
        |
            salted_hash(password@, salt) == Some(h@),
{
    let salt: [u8; 16] = match random_bytes::<16>() {
        Some(salt) => salt,
        None => return None,
    };
    hash_with_salt(password, &salt)
}

/// Checks `password` against a stored hash.
pub fn verify_password(hash: &str, password: &[u8]) -> (outcome: Result<(), PasswordError>)
    ensures
        outcome == password_outcome(stored_hash_verdict(hash@, password@)),
{
    judge(argon2_verify(hash, password))
}

} // verus!
