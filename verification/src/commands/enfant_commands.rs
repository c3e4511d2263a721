//! What the host asks about children.

use vstd::prelude::*;
use crate::commands::{told_in_transaction, told_of};
use crate::enfant_service::{
    create_enfant, creates, delete_enfant, deletes, get_all_enfants, get_enfant_by_code,
    get_enfant_by_id, select_all_enfants, select_enfant_by_code, select_enfant_by_id, update_enfant,
    updates,
};
use crate::error::{Failure, failure_text, report};
use crate::models::Enfant;
use crate::record::{all_of_reply, one_of_reply, optional_of_reply};
use crate::store::{Database, Exchange};

verus! {

/// Stores a new child and gives its identifier.
pub fn enfant_create(db: &mut Database, enfant: Enfant) -> (told: Result<i64, String>)
    ensures
        told_in_transaction(
            *old(db),
            *final(db),
            told,
            |steps: Seq<Exchange>, inner: Result<i64, Failure>| creates(enfant@, steps, inner),
        ),
{
    report(create_enfant(db, &enfant))
}

/// The child with this identifier.
pub fn enfant_get_by_id(db: &mut Database, enfant_id: i64) -> (told: Result<Enfant, String>)
    ensures
        told_of(
            *old(db),
            *final(db),
            select_enfant_by_id(enfant_id),
            told,
            one_of_reply::<Enfant>(final(db).last_reply()),
        ),
{
    report(get_enfant_by_id(db, enfant_id))
}

/// The child with this code, if there is one.
pub fn enfant_get_by_code(db: &mut Database, code: String) -> (told: Result<Option<Enfant>, String>)
    ensures
        told_of(
            *old(db),
            *final(db),
            select_enfant_by_code(code@),
            told,
            optional_of_reply::<Enfant>(final(db).last_reply()),
        ),
{
    report(get_enfant_by_code(db, code.as_str()))
}

/// Rewrites a stored child.
pub fn enfant_update(db: &mut Database, enfant: Enfant) -> (told: Result<(), String>)
    ensures
        enfant.id is None ==> *final(db) == *old(db) && told is Err && told->Err_0@ == failure_text(
            Failure::MissingId,
        ),
        enfant.id is Some ==> told_in_transaction(
            *old(db),
            *final(db),
            told,
            |steps: Seq<Exchange>, inner: Result<(), Failure>| updates(enfant@, steps, inner),
        ),
{
    report(update_enfant(db, &enfant))
}

/// Removes a child, keeping its snapshot and the deletion in the audit trail.
pub fn enfant_delete(db: &mut Database, enfant_id: i64, user_id: Option<i64>) -> (told: Result<(), String>)
    ensures
        told_in_transaction(
            *old(db),
            *final(db),
            told,
            |steps: Seq<Exchange>, inner: Result<(), Failure>| deletes(enfant_id, user_id, steps, inner),
        ),
{
    report(delete_enfant(db, enfant_id, user_id))
}

/// All children, by name and first name.
pub fn enfant_get_all(db: &mut Database) -> (told: Result<Vec<Enfant>, String>)
    ensures
        told_of(
            *old(db),
            *final(db),
            select_all_enfants(),
            told,
            all_of_reply::<Enfant>(final(db).last_reply()),
        ),
{
    report(get_all_enfants(db))
}

} // verus!
