use credential_core::hashing::is_hashed_credential;
use credential_core::{CredentialHasher, ServerError};

#[test]
fn hash_then_verify_accepts_the_plaintext() {
    let hasher = CredentialHasher::new();
    let encoded = hasher.hash("Abc123").expect("hashing succeeds");
    assert_ne!(encoded, "Abc123");
    assert!(encoded.starts_with("$argon2id$v=19$"));
    assert!(is_hashed_credential(&encoded));
    assert!(hasher.verify("Abc123", &encoded));
}

#[test]
fn two_hashes_of_one_password_differ_and_both_verify() {
    let hasher = CredentialHasher::new();
    let first = hasher.hash("P2025zhx").expect("hashing succeeds");
    let second = hasher.hash("P2025zhx").expect("hashing succeeds");
    assert_ne!(first, second);
    assert!(hasher.verify("P2025zhx", &first));
    assert!(hasher.verify("P2025zhx", &second));
}

#[test]
fn other_password_does_not_verify() {
    let hasher = CredentialHasher::new();
    let encoded = hasher.hash("Abc123").expect("hashing succeeds");
    assert!(!hasher.verify("Abc124", &encoded));
    assert!(!hasher.verify("", &encoded));
}

#[test]
fn empty_and_unicode_passwords_hash() {
    let hasher = CredentialHasher::new();
    let encoded = hasher.hash("").expect("hashing succeeds");
    assert!(hasher.verify("", &encoded));
    let unicode = hasher.hash("Pässwörd1ñ").expect("hashing succeeds");
    assert!(hasher.verify("Pässwörd1ñ", &unicode));
}

#[test]
fn malformed_credential_verifies_false() {
    let hasher = CredentialHasher::new();
    assert!(!hasher.verify("Abc123", "Abc123"));
    assert!(!hasher.verify("Abc123", ""));
    assert!(!hasher.verify("Abc123", "$argon2id$garbage"));
}

#[test]
fn hashed_marker_detection() {
    assert!(is_hashed_credential("$argon2id$v=19$m=19456,t=2,p=1$c2FsdA$aGFzaA"));
    assert!(!is_hashed_credential("P2025zhx"));
    assert!(!is_hashed_credential(""));
    assert!(!is_hashed_credential("$argon2i$v=19$m=16,t=2,p=1$c2FsdA$aGFzaA"));
    assert!(!is_hashed_credential("$argon2id"));
}

#[test]
fn hashing_failure_kind() {
    let e = ServerError::HashingFailure;
    assert_eq!(e.status(), 422);
    assert_eq!(e.message(), "password hashing failed");
}
