use credential_core::hashing::is_hashed_credential;
use credential_core::{migrate_all, CredentialHasher, MigrationOutcome, User};

fn user(id: u128, name: &str, password: &str) -> User {
    User {
        id,
        username: name.to_string(),
        primary_email_address: format!("{}@example.com", name),
        organization_id: None,
        team_id: Some(7),
        group_id: None,
        password: password.to_string(),
    }
}

#[test]
fn migration_hashes_plaintext_and_keeps_hashed() {
    let hasher = CredentialHasher::new();
    let already = hasher.hash("Xyz789").expect("hashing succeeds");
    let mut users = vec![user(1, "haoxiangzhou", "P2025zhx"), user(2, "bob", &already)];
    let outcomes = migrate_all(&hasher, &mut users);
    assert_eq!(outcomes, vec![MigrationOutcome::Rewritten, MigrationOutcome::AlreadyHashed]);
    assert!(is_hashed_credential(&users[0].password));
    assert_ne!(users[0].password, "P2025zhx");
    assert!(hasher.verify("P2025zhx", &users[0].password));
    assert_eq!(users[0].id, 1);
    assert_eq!(users[0].username, "haoxiangzhou");
    assert_eq!(users[0].team_id, Some(7));
    assert_eq!(users[1].password, already);
}

#[test]
fn migration_is_idempotent() {
    let hasher = CredentialHasher::new();
    let mut users = vec![user(1, "alice", "Abc123"), user(2, "bob", "hunter2")];
    let first = migrate_all(&hasher, &mut users);
    assert_eq!(first, vec![MigrationOutcome::Rewritten, MigrationOutcome::Rewritten]);
    let after_first: Vec<String> = users.iter().map(|u| u.password.clone()).collect();
    let second = migrate_all(&hasher, &mut users);
    assert_eq!(second, vec![MigrationOutcome::AlreadyHashed, MigrationOutcome::AlreadyHashed]);
    let after_second: Vec<String> = users.iter().map(|u| u.password.clone()).collect();
    assert_eq!(after_first, after_second);
    assert!(hasher.verify("Abc123", &users[0].password));
    assert!(hasher.verify("hunter2", &users[1].password));
}

#[test]
fn migration_of_empty_store() {
    let hasher = CredentialHasher::new();
    let mut users: Vec<User> = Vec::new();
    assert!(migrate_all(&hasher, &mut users).is_empty());
    assert!(users.is_empty());
}
