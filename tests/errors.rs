use credential_core::validation::RuleKind;
use credential_core::{ServerError, StorageFault, Violation};

fn violation(field: &str, rule: RuleKind, message: &str) -> Violation {
    Violation { field: field.to_string(), rule, message: message.to_string() }
}

#[test]
fn status_of_each_kind() {
    assert_eq!(ServerError::ValidationFailed(vec![]).status(), 400);
    assert_eq!(ServerError::CredentialNotFound.status(), 404);
    assert_eq!(ServerError::InvalidCredential.status(), 401);
    assert_eq!(ServerError::HashingFailure.status(), 422);
    assert_eq!(ServerError::StorageFailure(StorageFault::Conflict).status(), 409);
    assert_eq!(ServerError::StorageFailure(StorageFault::Unavailable).status(), 500);
}

#[test]
fn fixed_messages() {
    assert_eq!(ServerError::CredentialNotFound.message(), "user not found");
    assert_eq!(ServerError::InvalidCredential.message(), "invalid username or password");
    assert_eq!(
        ServerError::StorageFailure(StorageFault::Conflict).message(),
        "username or email already registered"
    );
    assert_eq!(ServerError::StorageFailure(StorageFault::Unavailable).message(), "storage unavailable");
}

#[test]
fn validation_message_lists_every_violation() {
    let e = ServerError::ValidationFailed(vec![
        violation("username", RuleKind::Length, "too short"),
        violation("password", RuleKind::Pattern, "needs a digit"),
        violation("confirm_password", RuleKind::Match, "passwords do not match"),
    ]);
    assert_eq!(
        e.message(),
        "Validation Error: username: too short; password: needs a digit; confirm_password: passwords do not match"
    );
    assert_eq!(ServerError::ValidationFailed(vec![]).message(), "Validation Error: ");
}
