//! Credentials: a password is stored as a bcrypt hash and checked against it.

use vstd::prelude::*;
use crate::error::StoreError;

verus! {

/// A failure reported by `bcrypt`.
#[verifier::external_type_specification]
#[verifier::external_body]
pub struct ExBcryptError(bcrypt::BcryptError);

/// Whether `bcrypt::verify` accepts the password `plain` for the stored `hash`,
/// that is, returns `Ok(true)`.
pub uninterp spec fn credential_matches(plain: Seq<char>, hash: Seq<char>) -> bool;

/// The cost at which credentials are hashed.
pub const HASH_COST: u32 = 10;

/// Calls `bcrypt::hash`: hashes `plain` at `cost` with a salt that is drawn at
/// random, so nothing is promised of the text that comes back.
#[verifier::external_body]
fn bcrypt_hash(plain: &str, cost: u32) -> (r: Result<String, bcrypt::BcryptError>) {
    bcrypt::hash(plain, cost)
}

/// Calls `bcrypt::verify`: recomputes the hash of `plain` with the cost and the
/// salt that `hash` names and compares. It fails on a text that is no bcrypt
/// hash.
#[verifier::external_body]
fn bcrypt_verify(plain: &str, hash: &str) -> (r: Result<bool, bcrypt::BcryptError>)
    ensures
        r matches Ok(accepted) ==> accepted == credential_matches(plain@, hash@),
        r is Err ==> !credential_matches(plain@, hash@),
{
    bcrypt::verify(plain, hash)
}

/// Hashes a password for storing. The hash that is handed out accepts the
/// password and is not the password itself: both are checked before it
/// leaves, and a hash that fails either check is a failure of the store.
pub fn hash_credential(plain: &str) -> (r: Result<String, StoreError>)
    ensures
        r matches Ok(hash) ==> credential_matches(plain@, hash@) && hash@ != plain@,
        r matches Err(e) ==> e == StoreError::StorageFailure,
{
    match bcrypt_hash(plain, HASH_COST) {
        Ok(hash) => {
            let given = plain.to_owned();
            if verify_credential(plain, hash.as_str()) && hash != given {
                Ok(hash)
            } else {
                Err(StoreError::StorageFailure)
            }
        },
        Err(_) => Err(StoreError::StorageFailure),
    }
}

/// Tells whether `plain` is the password that `hash` was made from. A stored
/// text that is no hash matches no password.
pub fn verify_credential(plain: &str, hash: &str) -> (r: bool)
    ensures
        r == credential_matches(plain@, hash@),
{
    match bcrypt_verify(plain, hash) {
        Ok(accepted) => accepted,
        Err(_) => false,
    }
}

} // verus!
