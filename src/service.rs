use vstd::prelude::*;

use crate::error::{ServerError, StorageFault};
use crate::hashing::{credential_verifies, is_hashed, CredentialHasher};
use crate::model::{LoginInfo, NewUser, RegisterInfo, User};
use crate::policy::{
    is_login_policy, is_register_policy, login_policy, policy_patterns_compile, register_policy,
    registration_values,
};
use crate::store::{name_or_email_taken, UserStore};
use crate::validation::{validate, views, violations, RuleSet, Violation, ViolationView};

verus! {

/// The field values of a registration, in the order of the registration rules.
pub open spec fn register_values(info: RegisterInfo) -> Seq<Option<Seq<char>>> {
    registration_values(info.username@, info.email@, info.password@, info.confirm_password@)
}

/// The field values of a login, in the order of the login rules.
pub open spec fn login_values(info: LoginInfo) -> Seq<Option<Seq<char>>> {
    seq![Some(info.username@), Some(info.password@)]
}

/// `n` is the account to persist for the registration `info`: its identity
/// as given, and a hashed credential that the password verifies against.
pub open spec fn prepared_for(n: NewUser, info: RegisterInfo) -> bool {
    &&& n.username@ == info.username@
    &&& n.primary_email_address@ == info.email@
    &&& is_hashed(n.password@)
    &&& credential_verifies(info.password@, n.password@)
}

/// `r` reports the violations `vs`: it is a validation failure listing
/// exactly them when there are any.
pub open spec fn reports_violations<T>(r: Result<T, ServerError>, vs: Seq<ViolationView>) -> bool {
    vs.len() > 0 ==> (r matches Err(ServerError::ValidationFailed(x)) && views(x@) == vs)
}

/// The login outcome once the lookup has answered `found`: the account, when
/// it has the requested username and the password verifies against its
/// credential; otherwise `InvalidCredential`, whether the username is unknown
/// or the password wrong, so that the two cannot be told apart.
pub open spec fn login_outcome(info: LoginInfo, found: Option<User>) -> Result<User, ServerError> {
    match found {
        Some(u) => if u.username@ == info.username@ && credential_verifies(
            info.password@,
            u.password@,
        ) {
            Ok(u)
        } else {
            Err(ServerError::InvalidCredential)
        },
        None => Err(ServerError::InvalidCredential),
    }
}

fn failure_of(vs: Vec<Violation>) -> (r: Result<(), ServerError>)
    ensures
        vs.len() == 0 <==> r is Ok,
        vs.len() > 0 ==> r == Err::<(), ServerError>(ServerError::ValidationFailed(vs)),
{
    if vs.len() == 0 {
        Ok(())
    } else {
        Err(ServerError::ValidationFailed(vs))
    }
}

/// Registration and login, step by step: validation first, then hashing or
/// verification, with the storage collaborator in between. Built once at
/// startup; the rule sets may be replaced, and every contract speaks of the
/// rules the service holds.
pub struct CredentialService {
    pub hasher: CredentialHasher,
    pub register_rules: RuleSet,
    pub login_rules: RuleSet,
}

impl CredentialService {
    /// The service with the standard registration and login rules; `None`
    /// exactly when a pattern of the password policy does not compile.
    pub fn new() -> (r: Option<CredentialService>)
        ensures
            r is Some <==> policy_patterns_compile(),
            r matches Some(s) ==> is_register_policy(s.register_rules) && is_login_policy(
                s.login_rules,
            ),
    {
        match register_policy() {
            Some(register_rules) => Some(
                CredentialService {
                    hasher: CredentialHasher::new(),
                    register_rules,
                    login_rules: login_policy(),
                },
            ),
            None => None,
        }
    }

    /// Validates a registration: `Ok` when it breaks no rule, otherwise a
    /// validation failure listing every violation.
    pub fn validate_registration(&self, info: &RegisterInfo) -> (r: Result<(), ServerError>)
        ensures
            r is Ok <==> violations(self.register_rules, register_values(*info)).len() == 0,
            reports_violations(r, violations(self.register_rules, register_values(*info))),
    {
        let mut values: Vec<Option<String>> = Vec::new();
        values.push(Some(info.username.clone()));
        values.push(Some(info.email.clone()));
        values.push(Some(info.password.clone()));
        values.push(Some(info.confirm_password.clone()));
        assert(values.deep_view() =~= register_values(*info));
        failure_of(validate(&self.register_rules, &values))
    }

    /// Validates a login: `Ok` when it breaks no rule, otherwise a validation
    /// failure listing every violation.
    pub fn validate_login(&self, info: &LoginInfo) -> (r: Result<(), ServerError>)
        ensures
            r is Ok <==> violations(self.login_rules, login_values(*info)).len() == 0,
            reports_violations(r, violations(self.login_rules, login_values(*info))),
    {
        let mut values: Vec<Option<String>> = Vec::new();
        values.push(Some(info.username.clone()));
        values.push(Some(info.password.clone()));
        assert(values.deep_view() =~= login_values(*info));
        failure_of(validate(&self.login_rules, &values))
    }

    /// The registration steps before storage: validate, then hash the
    /// password. A valid registration gives the account to persist, unless
    /// the hashing engine fails.
    pub fn prepare_registration(&self, info: &RegisterInfo) -> (r: Result<NewUser, ServerError>)
        ensures
            reports_violations(r, violations(self.register_rules, register_values(*info))),
            violations(self.register_rules, register_values(*info)).len() == 0 ==> match r {
                Ok(n) => prepared_for(n, *info),
                Err(e) => e is HashingFailure,
            },
    {
        match self.validate_registration(info) {
            Ok(()) => {},
            Err(e) => return Err(e),
        }
        match self.hasher.hash(info.password.as_str()) {
            Ok(encoded) => Ok(
                NewUser {
                    username: info.username.clone(),
                    primary_email_address: info.email.clone(),
                    password: encoded,
                },
            ),
            Err(e) => Err(e),
        }
    }

    /// The login step after the lookup of `info.username` answered `found`.
    pub fn finish_login(&self, info: &LoginInfo, found: Option<User>) -> (r: Result<
        User,
        ServerError,
    >)
        ensures
            r == login_outcome(*info, found),
    {
        match found {
            Some(u) => {
                let same_name = u.username == info.username;
                if same_name && self.hasher.verify(info.password.as_str(), u.password.as_str()) {
                    Ok(u)
                } else {
                    Err(ServerError::InvalidCredential)
                }
            },
            None => Err(ServerError::InvalidCredential),
        }
    }

    /// Registers an account in `store`: validate, hash, persist. Nothing is
    /// stored unless every step succeeds; a taken username or e-mail address
    /// is a conflict.
    pub fn register(&self, store: &mut UserStore, info: &RegisterInfo) -> (r: Result<
        User,
        ServerError,
    >)
        requires
            old(store).wf(),
        ensures
            final(store).wf(),
            reports_violations(r, violations(self.register_rules, register_values(*info))),
            r is Err ==> final(store)@ == old(store)@,
            violations(self.register_rules, register_values(*info)).len() == 0 ==> match r {
                Ok(u) => {
                    &&& !name_or_email_taken(old(store)@, info.username@, info.email@)
                    &&& final(store)@ == old(store)@.push(u)
                    &&& u.username@ == info.username@
                    &&& u.primary_email_address@ == info.email@
                    &&& u.organization_id is None && u.team_id is None && u.group_id is None
                    &&& is_hashed(u.password@)
                    &&& credential_verifies(info.password@, u.password@)
                },
                Err(ServerError::StorageFailure(StorageFault::Conflict)) => name_or_email_taken(
                    old(store)@,
                    info.username@,
                    info.email@,
                ),
                Err(e) => e is HashingFailure,
            },
    {
        let new_user = match self.prepare_registration(info) {
            Ok(n) => n,
            Err(e) => return Err(e),
        };
        match store.persist_user(new_user) {
            Ok(u) => Ok(u),
            Err(fault) => Err(ServerError::StorageFailure(fault)),
        }
    }

    /// Logs in against `store`: validate, look the username up, verify the
    /// password. An unknown username and a wrong password give the same
    /// `InvalidCredential`.
    pub fn login(&self, store: &UserStore, info: &LoginInfo) -> (r: Result<User, ServerError>)
        requires
            store.wf(),
        ensures
            reports_violations(r, violations(self.login_rules, login_values(*info))),
            violations(self.login_rules, login_values(*info)).len() == 0 ==> {
                &&& r is Ok <==> exists|i: int|
                    0 <= i < store@.len() && store@[i].username@ == info.username@
                        && credential_verifies(info.password@, store@[i].password@)
                &&& r matches Ok(u) ==> exists|i: int| 0 <= i < store@.len() && store@[i] == u
                &&& r matches Err(e) ==> e is InvalidCredential
            },
    {
        match self.validate_login(info) {
            Ok(()) => {},
            Err(e) => return Err(e),
        }
        let found = store.fetch_user_by_username(info.username.as_str());
        let r = self.finish_login(info, found);
        proof {
            if r is Ok {
                let u = found->Some_0;
                let i = choose|i: int| 0 <= i < store@.len() && store@[i] == u;
                assert(store@[i].username@ == info.username@);
            }
            if exists|i: int|
                0 <= i < store@.len() && store@[i].username@ == info.username@
                    && credential_verifies(info.password@, store@[i].password@) {
                let i = choose|i: int|
                    0 <= i < store@.len() && store@[i].username@ == info.username@
                        && credential_verifies(info.password@, store@[i].password@);
                let u = found->Some_0;
                let j = choose|j: int| 0 <= j < store@.len() && store@[j] == u;
                assert(i == j);
            }
        }
        r
    }
}

} // verus!
