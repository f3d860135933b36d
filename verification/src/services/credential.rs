//! The check of a secret against the hash that an account keeps of it.

use crate::utils::error::{AppError, AppResult};
use bcrypt::BcryptError;
use vstd::prelude::*;

verus! {

/// The error type of `bcrypt`.
#[verifier::external_type_specification]
#[verifier::external_body]
pub struct ExBcryptError(BcryptError);

/// What `bcrypt::verify` makes of a secret and a stored hash: whether the
/// secret is the hashed one, or nothing where the hash cannot be read as a
/// bcrypt hash. The hash carries its own salt and cost, so the answer hangs on
/// these two texts alone.
pub uninterp spec fn bcrypt_verify(secret: Seq<char>, hash: Seq<char>) -> Option<bool>;

/// Calls `bcrypt::verify`. Trusted: it answers `Ok` with the verdict that
/// `bcrypt` reaches for this secret and this hash, and `Err` exactly where
/// `bcrypt` cannot read the hash.
#[verifier::external_body]
fn bcrypt_check(secret: &str, hash: &str) -> (r: Result<bool, BcryptError>)
    ensures
        match r {
            Ok(matches) => bcrypt_verify(secret@, hash@) == Some(matches),
            Err(_) => bcrypt_verify(secret@, hash@) is None,
        },
{
    bcrypt::verify(secret, hash)
}

/// What the check of a secret comes to, once `bcrypt` has answered: its
/// verdict, or a hash error where it could not read the hash.
pub fn verdict_of(answer: Result<bool, BcryptError>) -> (r: AppResult<bool>)
    ensures
        match answer {
            Ok(matches) => r == Ok::<bool, AppError>(matches),
            Err(_) => r == Err::<bool, AppError>(AppError::HashError),
        },
{
    match answer {
        Ok(matches) => Ok(matches),
        Err(_) => Err(AppError::HashError),
    }
}

/// What [`verify`] returns for a secret and a stored hash.
pub open spec fn verification(secret: Seq<char>, hash: Seq<char>) -> AppResult<bool> {
    match bcrypt_verify(secret, hash) {
        Some(matches) => Ok(matches),
        None => Err(AppError::HashError),
    }
}

/// Checks `secret` against `hash`, the bcrypt hash that an account keeps.
/// The work that this takes grows with the cost that the hash names, and the
/// comparison takes the same time whatever the secret. A hash that is no
/// bcrypt hash is a hash error: the stored data is damaged, the client is not
/// at fault.
pub fn verify(secret: &str, hash: &str) -> (r: AppResult<bool>)
    ensures
        r == verification(secret@, hash@),
{
    verdict_of(bcrypt_check(secret, hash))
}

} // verus!
