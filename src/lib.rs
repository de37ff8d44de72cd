//! Credential lifecycle core: validation of untrusted account input, salted
//! password hashing and verification, migration of legacy plaintext
//! credentials, registration and login, and the classification of every
//! failure into a fixed error taxonomy.
pub mod error;
pub mod hashing;
pub mod migration;
pub mod model;
pub mod pattern;
pub mod policy;
pub mod service;
pub mod store;
pub mod text;
pub mod validation;

pub use error::{ServerError, StorageFault};
pub use hashing::CredentialHasher;
pub use migration::{migrate_all, MigrationOutcome};
pub use model::{LoginInfo, NewUser, RegisterInfo, User};
pub use service::CredentialService;
pub use store::UserStore;
pub use validation::{validate, Violation};
