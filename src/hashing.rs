use vstd::prelude::*;

use argon2::password_hash::rand_core::OsRng;
use argon2::password_hash::{PasswordHash, PasswordHasher, PasswordVerifier, SaltString};
use argon2::Argon2;

use crate::error::ServerError;
use crate::text::starts_with;

verus! {

#[verifier::external_type_specification]
#[verifier::external_body]
pub struct ExHashError(argon2::password_hash::Error);

/// The structural marker of a hashed credential: the PHC string of Argon2id.
pub const HASHED_PREFIX: &'static str = "$argon2id$";

/// A stored credential is in hashed state when it starts with the marker;
/// anything else is a legacy plaintext password.
pub open spec fn is_hashed(s: Seq<char>) -> bool {
    HASHED_PREFIX@.is_prefix_of(s)
}

/// Whether argon2 accepts `plaintext` against the encoded credential `encoded`.
pub uninterp spec fn credential_verifies(plaintext: Seq<char>, encoded: Seq<char>) -> bool;

/// Relies on argon2's `PasswordHasher::hash_password` on `Argon2::default()`
/// (Argon2id, version 19, default costs) with a salt from
/// `SaltString::generate(OsRng)`. The PHC string it renders starts with
/// `$argon2id$`, and `PasswordVerifier::verify_password`, which recomputes the
/// digest from the embedded algorithm, parameters and salt, accepts the same
/// plaintext against it. `OsRng` panics only when the operating system's
/// random source fails, whatever the input.
#[verifier::external_body]
fn argon2_hash(plaintext: &str) -> (r: Result<String, argon2::password_hash::Error>)
    ensures
        r matches Ok(s) ==> is_hashed(s@) && credential_verifies(plaintext@, s@),
{
    let salt = SaltString::generate(&mut OsRng);
    Argon2::default().hash_password(plaintext.as_bytes(), &salt).map(|h| h.to_string())
}

/// Relies on `PasswordHash::new`, which parses a PHC string, and argon2's
/// `PasswordVerifier::verify_password`: `true` exactly when the string parses
/// and the digest recomputed from its algorithm, parameters and salt equals
/// the embedded one (compared in constant time). The work factors are those
/// written in `encoded`.
#[verifier::external_body]
fn argon2_verify(plaintext: &str, encoded: &str) -> (r: bool)
    ensures
        r == credential_verifies(plaintext@, encoded@),
{
    match PasswordHash::new(encoded) {
        Ok(parsed) => Argon2::default().verify_password(plaintext.as_bytes(), &parsed).is_ok(),
        Err(_) => false,
    }
}

/// Whether a stored credential is already in hashed state.
pub fn is_hashed_credential(stored: &str) -> (r: bool)
    ensures
        r == is_hashed(stored@),
{
    starts_with(stored, HASHED_PREFIX)
}

/// The password hashing engine: Argon2id with the argon2 crate's default
/// work factors (19 MiB of memory, 2 passes, 1 lane) and a fresh random salt
/// for every hash. It holds no state; build one at startup and pass it to
/// whatever hashes or verifies.
pub struct CredentialHasher {}

impl CredentialHasher {
    pub fn new() -> (r: CredentialHasher) {
        CredentialHasher {  }
    }

    /// Hashes `plaintext` under a fresh salt. The encoded result is in hashed
    /// state and `verify` accepts `plaintext` against it; the only failure is
    /// an internal one of the engine.
    pub fn hash(&self, plaintext: &str) -> (r: Result<String, ServerError>)
        ensures
            r matches Ok(s) ==> is_hashed(s@) && credential_verifies(plaintext@, s@),
            r matches Err(e) ==> e is HashingFailure,
    {
        match argon2_hash(plaintext) {
            Ok(s) => Ok(s),
            Err(_) => Err(ServerError::HashingFailure),
        }
    }

    /// Whether `plaintext` verifies against the encoded credential; a
    /// credential that does not decode gives `false`, as a mismatch does.
    pub fn verify(&self, plaintext: &str, encoded: &str) -> (r: bool)
        ensures
            r == credential_verifies(plaintext@, encoded@),
    {
        argon2_verify(plaintext, encoded)
    }
}

} // verus!
