//! The password hasher: salted one-way digests for credentials at rest.
//!
//! The hashing is `bcrypt`'s. This module decides what a verification
//! outcome counts as: only a clean "yes" is a match.

use vstd::prelude::*;

verus! {

/// The error type of `bcrypt`, carried through as it is.
#[verifier::external_type_specification]
#[verifier::external_body]
pub struct ExBcryptError(bcrypt::BcryptError);

/// The hasher could not produce a digest.
#[derive(Debug, Clone, Copy, PartialEq, Eq)]
pub enum HashError {
    /// The hasher failed; no digest was produced.
    Failed,
}

/// What `bcrypt` answers when asked whether a password belongs to a digest:
/// yes or no, or nothing where it cannot read the digest.
pub uninterp spec fn bcrypt_verdict(password: Seq<char>, digest: Seq<char>) -> Option<bool>;

/// Whether a password matches a stored digest.
pub open spec fn password_matches(plaintext: Seq<char>, digest: Seq<char>) -> bool {
    bcrypt_verdict(plaintext, digest) == Some(true)
}

/// Hashes a password with `bcrypt::hash` at `bcrypt::DEFAULT_COST`, under a
/// salt that `bcrypt` draws at random. Trusted: a digest that comes back is
/// one that `bcrypt` accepts for the same password. Which digest comes back
/// is not determined by the password.
#[verifier::external_body]
fn bcrypt_hash(password: &str) -> (hashed: Result<String, bcrypt::BcryptError>)
    ensures
        hashed matches Ok(digest) ==> bcrypt_verdict(password@, digest@) == Some(true),
{
    bcrypt::hash(password, bcrypt::DEFAULT_COST)
}

/// Asks `bcrypt::verify` whether a password belongs to a digest. Trusted:
/// the answer is a function of the two arguments.
#[verifier::external_body]
fn bcrypt_verify(password: &str, digest: &str) -> (verdict: Result<bool, bcrypt::BcryptError>)
    ensures
        bcrypt_verdict(password@, digest@) == match verdict {
            Ok(answer) => Some(answer),
            Err(_) => None::<bool>,
        },
{
    bcrypt::verify(password, digest)
}

/// Whether a verification outcome counts as a match: only a clean "yes"
/// does. A digest that could not be read never authenticates anybody.
pub fn is_match(verdict: Option<bool>) -> (matched: bool)
    ensures
        matched == (verdict == Some(true)),
{
    match verdict {
        Some(answer) => answer,
        None => false,
    }
}

/// Hashes a password for storage, under a fresh random salt. The digest
/// that comes back matches the password it was made from.
pub fn hash(plaintext: &str) -> (hashed: Result<String, HashError>)
    ensures
        hashed matches Ok(digest) ==> password_matches(plaintext@, digest@),
{
    digest_or_failure(bcrypt_hash(plaintext))
}

/// What the hasher's outcome becomes: a digest is handed on untouched, and
/// every failure of the hasher is `Failed`.
pub fn digest_or_failure(outcome: Result<String, bcrypt::BcryptError>) -> (hashed: Result<String, HashError>)
    ensures
        match outcome {
            Ok(digest) => hashed matches Ok(kept) && kept@ == digest@,
            Err(_) => hashed == Err::<String, HashError>(HashError::Failed),
        },
{
    match outcome {
        Ok(digest) => Ok(digest),
        Err(_) => Err(HashError::Failed),
    }
}

/// Whether `plaintext` is the password that `digest` was made from. A
/// digest that is not well formed gives `false`, never an error.
pub fn verify(plaintext: &str, digest: &str) -> (matched: bool)
    ensures
        matched == password_matches(plaintext@, digest@),
{
    match bcrypt_verify(plaintext, digest) {
        Ok(answer) => is_match(Some(answer)),
        Err(_) => is_match(None),
    }
}

} // verus!
