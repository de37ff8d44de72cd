use vstd::prelude::*;

use crate::error::StorageFault;
use crate::model::{NewUser, User};

verus! {

/// No two accounts share a username, an e-mail address or an identifier.
pub open spec fn identities_unique(users: Seq<User>) -> bool {
    forall|i: int, j: int|
        0 <= i < j < users.len() ==> {
            &&& users[i].username@ != users[j].username@
            &&& users[i].primary_email_address@ != users[j].primary_email_address@
            &&& users[i].id != users[j].id
        }
}

/// Some account already holds the username `username` or the e-mail address
/// `email`.
pub open spec fn name_or_email_taken(users: Seq<User>, username: Seq<char>, email: Seq<char>) -> bool {
    exists|i: int|
        0 <= i < users.len() && (users[i].username@ == username
            || users[i].primary_email_address@ == email)
}

/// Some account already holds the username or the e-mail address of `user`.
pub open spec fn conflicts(users: Seq<User>, user: NewUser) -> bool {
    name_or_email_taken(users, user.username@, user.primary_email_address@)
}

/// The account that a newly stored `user` becomes, up to its identifier.
pub open spec fn stored_as(u: User, user: NewUser) -> bool {
    &&& u.username@ == user.username@
    &&& u.primary_email_address@ == user.primary_email_address@
    &&& u.password@ == user.password@
    &&& u.organization_id is None
    &&& u.team_id is None
    &&& u.group_id is None
}

/// An in-memory account store with the storage collaborator's two
/// operations: persist a new account and fetch one by username. It enforces
/// the uniqueness of usernames and e-mail addresses, as the relational store
/// does with its unique indexes.
pub struct UserStore {
    users: Vec<User>,
}

impl View for UserStore {
    type V = Seq<User>;

    closed spec fn view(&self) -> Seq<User> {
        self.users@
    }
}

fn copy_user(u: &User) -> (r: User)
    ensures
        r == *u,
{
    User {
        id: u.id,
        username: u.username.clone(),
        primary_email_address: u.primary_email_address.clone(),
        organization_id: u.organization_id,
        team_id: u.team_id,
        group_id: u.group_id,
        password: u.password.clone(),
    }
}

impl UserStore {
    /// Account identifiers are positions counted from one: unique, and never
    /// reused since accounts are not deleted.
    pub closed spec fn wf(&self) -> bool {
        &&& identities_unique(self.users@)
        &&& forall|i: int| 0 <= i < self.users@.len() ==> self.users@[i].id == i + 1
    }

    pub fn new() -> (r: UserStore)
        ensures
            r@ == Seq::<User>::empty(),
            r.wf(),
    {
        UserStore { users: Vec::new() }
    }

    pub fn len(&self) -> (r: usize)
        ensures
            r == self@.len(),
    {
        self.users.len()
    }

    /// Stores a new account with a fresh identifier. Fails with `Conflict`,
    /// changing nothing, exactly when the username or the e-mail address is
    /// already taken.
    pub fn persist_user(&mut self, user: NewUser) -> (r: Result<User, StorageFault>)
        requires
            old(self).wf(),
        ensures
            final(self).wf(),
            conflicts(old(self)@, user) ==> r == Err::<User, StorageFault>(StorageFault::Conflict)
                && final(self)@ == old(self)@,
            !conflicts(old(self)@, user) ==> (r matches Ok(u) && stored_as(u, user)
                && final(self)@ == old(self)@.push(u)),
            identities_unique(final(self)@),
    {
        let ghost start = self.users@;
        let mut i: usize = 0;
        while i < self.users.len()
            invariant
                self.users@ == start,
                self.wf(),
                i <= self.users@.len(),
                forall|k: int|
                    0 <= k < i ==> self.users@[k].username@ != user.username@
                        && self.users@[k].primary_email_address@ != user.primary_email_address@,
            decreases self.users.len() - i,
        {
            if self.users[i].username == user.username || self.users[i].primary_email_address
                == user.primary_email_address {
                assert(start[i as int].username@ == user.username@
                    || start[i as int].primary_email_address@ == user.primary_email_address@);
                return Err(StorageFault::Conflict);
            }
            i = i + 1;
        }
        let id = self.users.len() as u128 + 1;
        let stored = User {
            id,
            username: user.username,
            primary_email_address: user.primary_email_address,
            organization_id: None,
            team_id: None,
            group_id: None,
            password: user.password,
        };
        let copy = copy_user(&stored);
        self.users.push(stored);
        assert(self.users@ == start.push(copy));
        Ok(copy)
    }

    /// The account with this username, if any (there is at most one).
    pub fn fetch_user_by_username(&self, username: &str) -> (r: Option<User>)
        requires
            self.wf(),
        ensures
            r is None <==> forall|i: int| 0 <= i < self@.len() ==> self@[i].username@ != username@,
            r matches Some(u) ==> u.username@ == username@ && exists|i: int|
                0 <= i < self@.len() && self@[i] == u,
            identities_unique(self@),
    {
        let wanted = username.to_owned();
        let mut i: usize = 0;
        while i < self.users.len()
            invariant
                self.wf(),
                wanted@ == username@,
                i <= self.users@.len(),
                forall|k: int| 0 <= k < i ==> self.users@[k].username@ != username@,
            decreases self.users.len() - i,
        {
            if self.users[i].username == wanted {
                assert(self@[i as int].username@ == username@);
                return Some(copy_user(&self.users[i]));
            }
            i = i + 1;
        }
        None
    }
}

} // verus!
