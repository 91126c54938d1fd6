//! Password hashing and verification behavior, run against the real
//! hashing backend.
use auth_core::errors::AuthError;
use auth_core::hasher::check_password;
use auth_core::hasher::hash_password;

#[test]
fn hash_then_check_password_is_true() {
    let credential = hash_password("correct horse battery staple").unwrap();
    assert_eq!(check_password("correct horse battery staple", &credential), Ok(true));
}

#[test]
fn check_password_rejects_wrong_password() {
    let credential = hash_password("first password").unwrap();
    assert_eq!(check_password("second password", &credential), Ok(false));
}

#[test]
fn hash_twice_differs_but_both_verify() {
    let first = hash_password("same input").unwrap();
    let second = hash_password("same input").unwrap();
    assert_ne!(first, second);
    assert_eq!(check_password("same input", &first), Ok(true));
    assert_eq!(check_password("same input", &second), Ok(true));
}

#[test]
fn empty_password_is_hashing_error() {
    assert_eq!(hash_password(""), Err(AuthError::Hashing));
}

#[test]
fn malformed_credential_is_hashing_error_not_false() {
    assert_eq!(check_password("anything", "not-an-encoded-credential"), Err(AuthError::Hashing));
}

#[test]
fn credential_is_self_describing_and_not_the_password() {
    let credential = hash_password("plaintext").unwrap();
    assert!(credential.starts_with("$argon2"));
    assert_ne!(credential, "plaintext");
}
