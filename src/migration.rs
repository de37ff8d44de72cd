use vstd::prelude::*;

use crate::hashing::{credential_verifies, is_hashed, is_hashed_credential, CredentialHasher};
use crate::model::{same_identity, User};

verus! {

/// What the migration did to one stored record.
#[derive(Clone, Copy, Debug, PartialEq, Eq, Structural)]
pub enum MigrationOutcome {
    /// The credential was already hashed; the record was not touched.
    AlreadyHashed,
    /// The plaintext was hashed and the record rewritten; it must be persisted.
    Rewritten,
    /// Hashing failed; the record keeps its plaintext and a later run retries it.
    Failed,
}

/// The relation between one record before and after the migration, and the
/// outcome reported for it.
pub open spec fn record_migrated(before: User, after: User, outcome: MigrationOutcome) -> bool {
    match outcome {
        MigrationOutcome::AlreadyHashed => is_hashed(before.password@) && after == before,
        MigrationOutcome::Rewritten => {
            &&& !is_hashed(before.password@)
            &&& same_identity(before, after)
            &&& is_hashed(after.password@)
            &&& credential_verifies(before.password@, after.password@)
        },
        MigrationOutcome::Failed => !is_hashed(before.password@) && after == before,
    }
}

/// The relation between the whole store before and after a migration sweep.
pub open spec fn sweep_migrated(
    before: Seq<User>,
    after: Seq<User>,
    outcomes: Seq<MigrationOutcome>,
) -> bool {
    &&& after.len() == before.len()
    &&& outcomes.len() == before.len()
    &&& forall|i: int| 0 <= i < before.len() ==> record_migrated(before[i], after[i], outcomes[i])
}

/// Every record of the store holds a hashed credential.
pub open spec fn all_hashed(users: Seq<User>) -> bool {
    forall|i: int| 0 <= i < users.len() ==> is_hashed(users[i].password@)
}

/// Upgrades every legacy plaintext credential in `users` to hashed form, in
/// place, and reports per record what happened. A hashed record is never
/// rehashed (detection is by the hashed-state marker in the stored string),
/// and a failure on one record does not stop the sweep. The records marked
/// `Rewritten` are the writes to persist.
pub fn migrate_all(hasher: &CredentialHasher, users: &mut Vec<User>) -> (outcomes: Vec<
    MigrationOutcome,
>)
    ensures
        sweep_migrated(old(users)@, final(users)@, outcomes@),
{
    let ghost start = users@;
    let mut outcomes: Vec<MigrationOutcome> = Vec::new();
    let mut i: usize = 0;
    while i < users.len()
        invariant
            users@.len() == start.len(),
            i <= users.len(),
            outcomes@.len() == i,
            forall|k: int| 0 <= k < i ==> record_migrated(start[k], users@[k], outcomes@[k]),
            forall|k: int| i <= k < users@.len() ==> users@[k] == start[k],
        decreases users.len() - i,
    {
        if is_hashed_credential(users[i].password.as_str()) {
            outcomes.push(MigrationOutcome::AlreadyHashed);
        } else {
            match hasher.hash(users[i].password.as_str()) {
                Ok(encoded) => {
                    let old_user = &users[i];
                    let updated = User {
                        id: old_user.id,
                        username: old_user.username.clone(),
                        primary_email_address: old_user.primary_email_address.clone(),
                        organization_id: old_user.organization_id,
                        team_id: old_user.team_id,
                        group_id: old_user.group_id,
                        password: encoded,
                    };
                    users.set(i, updated);
                    outcomes.push(MigrationOutcome::Rewritten);
                },
                Err(_) => {
                    outcomes.push(MigrationOutcome::Failed);
                },
            }
        }
        i = i + 1;
    }
    outcomes
}

/// The number of records a sweep rewrote, i.e. the writes it asks for.
pub open spec fn writes(outcomes: Seq<MigrationOutcome>) -> nat
    decreases outcomes.len(),
{
    if outcomes.len() == 0 {
        0
    } else {
        writes(outcomes.drop_last()) + if outcomes.last() == MigrationOutcome::Rewritten {
            1nat
        } else {
            0nat
        }
    }
}

proof fn lemma_no_rewrites(outcomes: Seq<MigrationOutcome>)
    requires
        forall|i: int| 0 <= i < outcomes.len() ==> outcomes[i] == MigrationOutcome::AlreadyHashed,
    ensures
        writes(outcomes) == 0,
    decreases outcomes.len(),
{
    if outcomes.len() > 0 {
        lemma_no_rewrites(outcomes.drop_last());
    }
}

/// A sweep in which no record failed leaves every credential hashed.
pub proof fn lemma_sweep_hashes_all(
    before: Seq<User>,
    after: Seq<User>,
    outcomes: Seq<MigrationOutcome>,
)
    requires
        sweep_migrated(before, after, outcomes),
        forall|i: int| 0 <= i < outcomes.len() ==> outcomes[i] != MigrationOutcome::Failed,
    ensures
        all_hashed(after),
{
    assert forall|i: int| 0 <= i < after.len() implies is_hashed(after[i].password@) by {
        assert(record_migrated(before[i], after[i], outcomes[i]));
    }
}

/// The migration is idempotent: once a sweep has completed without a failed
/// record, a second sweep writes nothing and leaves the store exactly as the
/// first one left it, so every verification result is unchanged as well.
pub proof fn lemma_migration_idempotent(
    before: Seq<User>,
    first: Seq<User>,
    first_outcomes: Seq<MigrationOutcome>,
    second: Seq<User>,
    second_outcomes: Seq<MigrationOutcome>,
)
    requires
        sweep_migrated(before, first, first_outcomes),
        forall|i: int|
            0 <= i < first_outcomes.len() ==> first_outcomes[i] != MigrationOutcome::Failed,
        sweep_migrated(first, second, second_outcomes),
    ensures
        second == first,
        forall|i: int|
            0 <= i < second_outcomes.len() ==> second_outcomes[i] == MigrationOutcome::AlreadyHashed,
        writes(second_outcomes) == 0,
{
    lemma_sweep_hashes_all(before, first, first_outcomes);
    assert forall|i: int| 0 <= i < second_outcomes.len() implies second_outcomes[i]
        == MigrationOutcome::AlreadyHashed && second[i] == first[i] by {
        assert(is_hashed(first[i].password@));
        assert(record_migrated(first[i], second[i], second_outcomes[i]));
    }
    assert(second =~= first);
    lemma_no_rewrites(second_outcomes);
}

} // verus!
