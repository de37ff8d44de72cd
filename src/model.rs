use vstd::prelude::*;

verus! {

/// A stored account: the identity and its credential.
///
/// Identifiers are the 128-bit values of the store's UUIDs. `password` holds
/// the encoded credential, or a legacy plaintext password not yet migrated.
#[derive(Debug)]
pub struct User {
    pub id: u128,
    pub username: String,
    pub primary_email_address: String,
    pub organization_id: Option<u128>,
    pub team_id: Option<u128>,
    pub group_id: Option<u128>,
    pub password: String,
}

/// A registration request.
pub struct RegisterInfo {
    pub username: String,
    pub email: String,
    pub password: String,
    pub confirm_password: String,
}

/// A login request.
pub struct LoginInfo {
    pub username: String,
    pub password: String,
}

/// An account ready to be persisted: its identity and its encoded credential.
/// It has no team, group or organization yet.
pub struct NewUser {
    pub username: String,
    pub primary_email_address: String,
    pub password: String,
}

/// `a` and `b` are the same account apart from the credential.
pub open spec fn same_identity(a: User, b: User) -> bool {
    &&& a.id == b.id
    &&& a.username == b.username
    &&& a.primary_email_address == b.primary_email_address
    &&& a.organization_id == b.organization_id
    &&& a.team_id == b.team_id
    &&& a.group_id == b.group_id
}

} // verus!
