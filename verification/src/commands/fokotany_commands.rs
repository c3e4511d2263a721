//! What the host asks about areas.

use vstd::prelude::*;
use crate::commands::{told_in_transaction, told_of};
use crate::error::{Failure, failure_text, report};
use crate::fokotany_service::{
    create_fokotany, delete_fokotany, delete_fokotany_statements, get_all_fokotany, get_fokotany_by_id, get_fokotany_by_name,
    insert_fokotany, select_all_fokotany, select_fokotany_by_id, select_fokotany_by_name, update_fokotany,
    update_fokotany_statement,
};
use crate::models::Fokotany;
use crate::record::{all_of_reply, one_of_reply, optional_of_reply};
use crate::store::{Database, Exchange, done_on_existing, inserted_id};
use crate::transaction::wrote_in_order;

verus! {

/// Stores an area and gives its identifier.
pub fn fokotany_create(db: &mut Database, fokotany: Fokotany) -> (told: Result<i64, String>)
    ensures
        told_of(
            *old(db),
            *final(db),
            insert_fokotany(fokotany@),
            told,
            inserted_id(final(db).last_reply()),
        ),
{
    report(create_fokotany(db, &fokotany))
}

/// The record with this identifier.
pub fn fokotany_get_by_id(db: &mut Database, id: i64) -> (told: Result<Fokotany, String>)
    ensures
        told_of(
            *old(db),
            *final(db),
            select_fokotany_by_id(id),
            told,
            one_of_reply::<Fokotany>(final(db).last_reply()),
        ),
{
    report(get_fokotany_by_id(db, id))
}

/// The record with this name, if there is one.
pub fn fokotany_get_by_name(db: &mut Database, name: String) -> (told: Result<Option<Fokotany>, String>)
    ensures
        told_of(
            *old(db),
            *final(db),
            select_fokotany_by_name(name@),
            told,
            optional_of_reply::<Fokotany>(final(db).last_reply()),
        ),
{
    report(get_fokotany_by_name(db, name.as_str()))
}

/// Rewrites a stored record.
pub fn fokotany_update(db: &mut Database, fokotany: Fokotany) -> (told: Result<(), String>)
    ensures
        fokotany.id is None ==> *final(db) == *old(db) && told is Err && told->Err_0@ == failure_text(
            Failure::MissingId,
        ),
        fokotany.id is Some ==> told_of(
            *old(db),
            *final(db),
            update_fokotany_statement(fokotany@),
            told,
            done_on_existing(final(db).last_reply()),
        ),
{
    report(update_fokotany(db, &fokotany))
}

/// Removes an area and the references that children keep to it.
pub fn fokotany_delete(db: &mut Database, id: i64) -> (told: Result<(), String>)
    ensures
        told_in_transaction(
            *old(db),
            *final(db),
            told,
            |steps: Seq<Exchange>, inner: Result<(), Failure>| wrote_in_order(delete_fokotany_statements(id), steps, inner),
        ),
{
    report(delete_fokotany(db, id))
}

/// All records, by name.
pub fn fokotany_get_all(db: &mut Database) -> (told: Result<Vec<Fokotany>, String>)
    ensures
        told_of(
            *old(db),
            *final(db),
            select_all_fokotany(),
            told,
            all_of_reply::<Fokotany>(final(db).last_reply()),
        ),
{
    report(get_all_fokotany(db))
}

} // verus!
