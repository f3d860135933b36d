use api::services::credential::{verdict_of, verify};
use api::utils::error::AppError;
use bcrypt::BcryptError;

/// The hash of the secret "a", with cost 6.
const HASH_OF_A: &str = "$2a$06$m0CrhHm10qJ3lXRY.5zDGO3rS2KdeeWLuGmsfGlMfOxih58VYVfxe";

#[test]
fn the_hashed_secret_is_accepted() {
    assert_eq!(verify("a", HASH_OF_A), Ok(true));
}

#[test]
fn another_secret_is_rejected() {
    assert_eq!(verify("b", HASH_OF_A), Ok(false));
    assert_eq!(verify("", HASH_OF_A), Ok(false));
    assert_eq!(verify("aa", HASH_OF_A), Ok(false));
}

#[test]
fn a_fresh_hash_accepts_its_secret_only() {
    let hash = bcrypt::hash("correctpw", 4).unwrap();
    assert_eq!(verify("correctpw", &hash), Ok(true));
    assert_eq!(verify("wrongpw", &hash), Ok(false));
    assert_eq!(verify("correctpw ", &hash), Ok(false));
}

#[test]
fn what_is_no_hash_is_a_hash_error() {
    assert_eq!(verify("a", ""), Err(AppError::HashError));
    assert_eq!(verify("a", "plaintext"), Err(AppError::HashError));
    assert_eq!(verify("a", &HASH_OF_A[..59]), Err(AppError::HashError));
    assert_eq!(
        verify("a", "$9z$06$m0CrhHm10qJ3lXRY.5zDGO3rS2KdeeWLuGmsfGlMfOxih58VYVfxe"),
        Err(AppError::HashError)
    );
}

#[test]
fn a_hash_with_a_cost_out_of_range_is_a_hash_error() {
    assert_eq!(
        verify("a", "$2a$03$m0CrhHm10qJ3lXRY.5zDGO3rS2KdeeWLuGmsfGlMfOxih58VYVfxe"),
        Err(AppError::HashError)
    );
}

#[test]
fn the_answer_of_bcrypt_becomes_the_verdict() {
    assert_eq!(verdict_of(Ok(true)), Ok(true));
    assert_eq!(verdict_of(Ok(false)), Ok(false));
    assert_eq!(verdict_of(Err(BcryptError::InvalidHash("malformed"))), Err(AppError::HashError));
    assert_eq!(verdict_of(Err(BcryptError::CostNotAllowed(3))), Err(AppError::HashError));
}
