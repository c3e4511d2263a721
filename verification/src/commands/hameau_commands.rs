//! What the host asks about sub-areas.

use vstd::prelude::*;
use crate::commands::{told_in_transaction, told_of};
use crate::error::{Failure, failure_text, report};
use crate::hameau_service::{
    create_hameau, delete_hameau, delete_hameau_statements, get_all_hameaux, get_hameau_by_id, get_hameau_by_name,
    insert_hameau, select_all_hameau, select_hameau_by_id, select_hameau_by_name, update_hameau,
    update_hameau_statement,
};
use crate::models::Hameau;
use crate::record::{all_of_reply, one_of_reply, optional_of_reply};
use crate::store::{Database, Exchange, done_on_existing, inserted_id};
use crate::transaction::wrote_in_order;

verus! {

/// Stores a sub-area and gives its identifier.
pub fn hameau_create(db: &mut Database, hameau: Hameau) -> (told: Result<i64, String>)
    ensures
        told_of(
            *old(db),
            *final(db),
            insert_hameau(hameau@),
            told,
            inserted_id(final(db).last_reply()),
        ),
{
    report(create_hameau(db, &hameau))
}

/// The record with this identifier.
pub fn hameau_get_by_id(db: &mut Database, id: i64) -> (told: Result<Hameau, String>)
    ensures
        told_of(
            *old(db),
            *final(db),
            select_hameau_by_id(id),
            told,
            one_of_reply::<Hameau>(final(db).last_reply()),
        ),
{
    report(get_hameau_by_id(db, id))
}

/// The record with this name, if there is one.
pub fn hameau_get_by_name(db: &mut Database, name: String) -> (told: Result<Option<Hameau>, String>)
    ensures
        told_of(
            *old(db),
            *final(db),
            select_hameau_by_name(name@),
            told,
            optional_of_reply::<Hameau>(final(db).last_reply()),
        ),
{
    report(get_hameau_by_name(db, name.as_str()))
}

/// Rewrites a stored record.
pub fn hameau_update(db: &mut Database, hameau: Hameau) -> (told: Result<(), String>)
    ensures
        hameau.id is None ==> *final(db) == *old(db) && told is Err && told->Err_0@ == failure_text(
            Failure::MissingId,
        ),
        hameau.id is Some ==> told_of(
            *old(db),
            *final(db),
            update_hameau_statement(hameau@),
            told,
            done_on_existing(final(db).last_reply()),
        ),
{
    report(update_hameau(db, &hameau))
}

/// Removes a sub-area and the references that children keep to it.
pub fn hameau_delete(db: &mut Database, id: i64) -> (told: Result<(), String>)
    ensures
        told_in_transaction(
            *old(db),
            *final(db),
            told,
            |steps: Seq<Exchange>, inner: Result<(), Failure>| wrote_in_order(delete_hameau_statements(id), steps, inner),
        ),
{
    report(delete_hameau(db, id))
}

/// All records, by name.
pub fn hameau_get_all(db: &mut Database) -> (told: Result<Vec<Hameau>, String>)
    ensures
        told_of(
            *old(db),
            *final(db),
            select_all_hameau(),
            told,
            all_of_reply::<Hameau>(final(db).last_reply()),
        ),
{
    report(get_all_hameaux(db))
}

} // verus!
