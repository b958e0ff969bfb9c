use auth_service::service::auth::{generate_password_hash, verify_password};
use auth_service::service::result::ServiceError;

#[test]
fn a_hash_verifies_the_password_it_was_made_from() {
    let hash = generate_password_hash("correct horse").unwrap();
    assert_eq!(verify_password("correct horse", &hash).unwrap(), true);
}

#[test]
fn a_hash_does_not_verify_another_password() {
    let hash = generate_password_hash("correct horse").unwrap();
    assert_eq!(verify_password("battery staple", &hash).unwrap(), false);
    assert_eq!(verify_password("", &hash).unwrap(), false);
}

#[test]
fn a_hash_describes_itself_and_is_not_the_password() {
    let hash = generate_password_hash("correct horse").unwrap();
    assert!(hash.starts_with("$argon2id$v=19$"));
    assert!(!hash.contains("correct horse"));
}

#[test]
fn two_hashes_of_one_password_differ_in_their_salt() {
    let first = generate_password_hash("correct horse").unwrap();
    let second = generate_password_hash("correct horse").unwrap();
    assert_ne!(first, second);
    assert_eq!(verify_password("correct horse", &first).unwrap(), true);
    assert_eq!(verify_password("correct horse", &second).unwrap(), true);
}

#[test]
fn the_empty_password_is_hashed_like_any_other() {
    let hash = generate_password_hash("").unwrap();
    assert_eq!(verify_password("", &hash).unwrap(), true);
    assert_eq!(verify_password("x", &hash).unwrap(), false);
}

#[test]
fn a_malformed_hash_is_a_failure_and_no_mismatch() {
    assert!(matches!(verify_password("correct horse", "not a hash"), Err(ServiceError::PasswordHash(_))));
    assert!(matches!(verify_password("correct horse", ""), Err(ServiceError::PasswordHash(_))));
    assert!(matches!(verify_password("correct horse", "correct horse"), Err(ServiceError::PasswordHash(_))));
}

#[test]
fn a_well_formed_hash_of_another_password_is_a_mismatch() {
    let hash = "$argon2id$v=19$m=16,t=2,p=1$c29tZXNhbHQ$0MrQ6tHCbWxsg0FRVRpFNg";
    let outcome = verify_password("definitely wrong", hash).unwrap();
    assert_eq!(outcome, false);
}
