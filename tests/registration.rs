use credential_core::hashing::is_hashed_credential;
use credential_core::{
    CredentialService, LoginInfo, RegisterInfo, ServerError, StorageFault, UserStore,
};

fn service() -> CredentialService {
    CredentialService::new().expect("the password policy patterns compile")
}

fn register_info(username: &str, email: &str, password: &str, confirm: &str) -> RegisterInfo {
    RegisterInfo {
        username: username.to_string(),
        email: email.to_string(),
        password: password.to_string(),
        confirm_password: confirm.to_string(),
    }
}

fn login_info(username: &str, password: &str) -> LoginInfo {
    LoginInfo { username: username.to_string(), password: password.to_string() }
}

#[test]
fn test_register_user_success() {
    let service = service();
    let info = register_info("haoxiangzhou", "haoxiangzhou@example.com", "P2025zhx", "P2025zhx");
    let mut store = UserStore::new();
    let user = service.register(&mut store, &info).expect("registration succeeds");
    assert_eq!(user.username, "haoxiangzhou");
    assert_eq!(user.primary_email_address, "haoxiangzhou@example.com");
    assert_eq!(store.len(), 1);
}

#[test]
fn test_register_user_failed() {
    let service = service();
    let info = register_info("test_2", "test_2@example.com", "p2025test2", "p2025test2");
    let err = service.prepare_registration(&info).err().expect("validation fails");
    assert_eq!(err.status(), 400);
    assert_eq!(
        err.message(),
        "Validation Error: password: passwords must contain at least one upper case letter"
    );
}

#[test]
fn register_alice_then_duplicate_is_conflict() {
    let service = service();
    let mut store = UserStore::new();
    let info = register_info("alice", "alice@example.com", "Abc123", "Abc123");
    let user = service.register(&mut store, &info).expect("first registration succeeds");
    assert!(is_hashed_credential(&user.password));
    assert!(user.password.starts_with("$argon2id$"));
    assert_ne!(user.password, "Abc123");
    assert!(service.hasher.verify("Abc123", &user.password));
    assert_eq!(user.team_id, None);
    assert_eq!(user.group_id, None);
    assert_eq!(user.organization_id, None);

    let again = register_info("alice", "other@example.com", "Abc123", "Abc123");
    let err = service.register(&mut store, &again).err().expect("duplicate username refused");
    assert!(matches!(err, ServerError::StorageFailure(StorageFault::Conflict)));
    assert_eq!(err.status(), 409);
    assert_eq!(store.len(), 1);
}

#[test]
fn duplicate_email_is_conflict() {
    let service = service();
    let mut store = UserStore::new();
    let first = register_info("alice", "alice@example.com", "Abc123", "Abc123");
    service.register(&mut store, &first).expect("first registration succeeds");
    let second = register_info("bob", "alice@example.com", "Abc123", "Abc123");
    let err = service.register(&mut store, &second).err().expect("duplicate e-mail refused");
    assert!(matches!(err, ServerError::StorageFailure(StorageFault::Conflict)));
}

#[test]
fn invalid_registration_stores_nothing() {
    let service = service();
    let mut store = UserStore::new();
    let info = register_info("al", "alice@example.com", "Abc123", "Abc123");
    let err = service.register(&mut store, &info).err().expect("short username refused");
    assert!(matches!(err, ServerError::ValidationFailed(_)));
    assert_eq!(store.len(), 0);
}

#[test]
fn login_after_registration() {
    let service = service();
    let mut store = UserStore::new();
    let info = register_info("alice", "alice@example.com", "Abc123", "Abc123");
    let registered = service.register(&mut store, &info).expect("registration succeeds");

    let user = service.login(&store, &login_info("alice", "Abc123")).expect("login succeeds");
    assert_eq!(user.username, "alice");
    assert_eq!(user.id, registered.id);
    assert_eq!(user.primary_email_address, "alice@example.com");

    let wrong = service.login(&store, &login_info("alice", "wrong")).err().expect("wrong password");
    assert!(matches!(wrong, ServerError::InvalidCredential));
    assert_eq!(wrong.status(), 401);

    let ghost = service.login(&store, &login_info("ghost", "x")).err().expect("unknown user");
    assert!(matches!(ghost, ServerError::InvalidCredential));
    assert_eq!(ghost.message(), wrong.message());
    assert_eq!(ghost.status(), wrong.status());
}

#[test]
fn login_input_is_validated_first() {
    let service = service();
    let store = UserStore::new();
    let err = service.login(&store, &login_info("al", "")).err().expect("invalid input");
    match err {
        ServerError::ValidationFailed(vs) => {
            assert_eq!(vs.len(), 2);
            assert_eq!(vs[0].field, "username");
            assert_eq!(vs[1].field, "password");
            assert_eq!(vs[1].message, "password must not be empty");
        }
        _ => panic!("expected a validation failure"),
    }
}

#[test]
fn finish_login_rejects_other_username_and_missing_user() {
    let service = service();
    let mut store = UserStore::new();
    let info = register_info("alice", "alice@example.com", "Abc123", "Abc123");
    let registered = service.register(&mut store, &info).expect("registration succeeds");
    let err = service.finish_login(&login_info("alicia", "Abc123"), Some(registered));
    assert!(matches!(err, Err(ServerError::InvalidCredential)));
    let none = service.finish_login(&login_info("alice", "Abc123"), None);
    assert!(matches!(none, Err(ServerError::InvalidCredential)));
}

#[test]
fn prepare_registration_hashes_the_password() {
    let service = service();
    let info = register_info("carol", "carol@example.org", "Secret9x", "Secret9x");
    let new_user = service.prepare_registration(&info).expect("valid registration");
    assert_eq!(new_user.username, "carol");
    assert_eq!(new_user.primary_email_address, "carol@example.org");
    assert_ne!(new_user.password, "Secret9x");
    assert!(service.hasher.verify("Secret9x", &new_user.password));
}

#[test]
fn fetch_user_by_username_finds_only_exact_match() {
    let service = service();
    let mut store = UserStore::new();
    let info = register_info("alice", "alice@example.com", "Abc123", "Abc123");
    service.register(&mut store, &info).expect("registration succeeds");
    assert!(store.fetch_user_by_username("alice").is_some());
    assert!(store.fetch_user_by_username("Alice").is_none());
    assert!(store.fetch_user_by_username("alic").is_none());
}
