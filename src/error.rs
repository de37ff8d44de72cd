use vstd::prelude::*;

use crate::validation::{views, Violation, ViolationView};

verus! {

/// Why the storage collaborator refused a write or a read.
#[derive(Clone, Copy, Debug, PartialEq, Eq, Structural)]
pub enum StorageFault {
    /// A uniqueness constraint was violated (the username or e-mail is taken).
    Conflict,
    /// Any other storage failure: unreachable store, driver or I/O error.
    Unavailable,
}

/// Every failure of the credential core, by kind.
#[derive(Debug)]
pub enum ServerError {
    /// The input broke one or more rules; all of them are listed, in order.
    ValidationFailed(Vec<Violation>),
    /// No account has the given username.
    CredentialNotFound,
    /// The password does not verify against the stored credential (at login
    /// an unknown username is reported this way too).
    InvalidCredential,
    /// The hashing engine failed internally.
    HashingFailure,
    /// The storage collaborator failed.
    StorageFailure(StorageFault),
}

/// The transport status of each kind of error.
pub open spec fn status_of(e: ServerError) -> u16 {
    match e {
        ServerError::ValidationFailed(_) => 400,
        ServerError::CredentialNotFound => 404,
        ServerError::InvalidCredential => 401,
        ServerError::HashingFailure => 422,
        ServerError::StorageFailure(StorageFault::Conflict) => 409,
        ServerError::StorageFailure(StorageFault::Unavailable) => 500,
    }
}

/// `field: message` for one violation.
pub open spec fn violation_line(v: ViolationView) -> Seq<char> {
    v.field + ": "@ + v.message
}

/// The violations as `field: message`, separated by `; `.
pub open spec fn joined_violations(vs: Seq<ViolationView>) -> Seq<char>
    decreases vs.len(),
{
    if vs.len() == 0 {
        Seq::empty()
    } else if vs.len() == 1 {
        violation_line(vs[0])
    } else {
        joined_violations(vs.drop_last()) + "; "@ + violation_line(vs.last())
    }
}

/// The fixed message of each kind; only a validation failure carries detail,
/// its list of violations.
pub open spec fn message_of(e: ServerError) -> Seq<char> {
    match e {
        ServerError::ValidationFailed(vs) => "Validation Error: "@ + joined_violations(views(vs@)),
        ServerError::CredentialNotFound => "user not found"@,
        ServerError::InvalidCredential => "invalid username or password"@,
        ServerError::HashingFailure => "password hashing failed"@,
        ServerError::StorageFailure(StorageFault::Conflict) => "username or email already registered"@,
        ServerError::StorageFailure(StorageFault::Unavailable) => "storage unavailable"@,
    }
}

impl ServerError {
    /// The transport status (an HTTP status code) of this error.
    pub fn status(&self) -> (r: u16)
        ensures
            r == status_of(*self),
    {
        match self {
            ServerError::ValidationFailed(_) => 400,
            ServerError::CredentialNotFound => 404,
            ServerError::InvalidCredential => 401,
            ServerError::HashingFailure => 422,
            ServerError::StorageFailure(StorageFault::Conflict) => 409,
            ServerError::StorageFailure(StorageFault::Unavailable) => 500,
        }
    }

    /// The message shown to the caller; it never holds internal error text.
    pub fn message(&self) -> (r: String)
        ensures
            r@ == message_of(*self),
    {
        match self {
            ServerError::ValidationFailed(vs) => {
                let mut out = "Validation Error: ".to_owned();
                let ghost head = out@;
                let mut i: usize = 0;
                while i < vs.len()
                    invariant
                        i <= vs.len(),
                        head == "Validation Error: "@,
                        out@ == head + joined_violations(views(vs@).take(i as int)),
                    decreases vs.len() - i,
                {
                    let ghost before = out@;
                    if i > 0 {
                        out.append("; ");
                    }
                    out.append(vs[i].field.as_str());
                    out.append(": ");
                    out.append(vs[i].message.as_str());
                    proof {
                        let t = views(vs@).take(i + 1);
                        assert(t.drop_last() =~= views(vs@).take(i as int));
                        assert(t.last() == vs@[i as int]@);
                        if i == 0 {
                            assert(views(vs@).take(0) =~= Seq::<ViolationView>::empty());
                            assert(out@ =~= head + joined_violations(t));
                        } else {
                            assert(out@ =~= head + joined_violations(t));
                        }
                    }
                    i = i + 1;
                }
                assert(views(vs@).take(i as int) =~= views(vs@));
                out
            },
            ServerError::CredentialNotFound => "user not found".to_owned(),
            ServerError::InvalidCredential => "invalid username or password".to_owned(),
            ServerError::HashingFailure => "password hashing failed".to_owned(),
            ServerError::StorageFailure(StorageFault::Conflict) => "username or email already registered".to_owned(),
            ServerError::StorageFailure(StorageFault::Unavailable) => "storage unavailable".to_owned(),
        }
    }
}

} // verus!
