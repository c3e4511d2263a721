//! What the host asks about vaccines.

use vstd::prelude::*;
use crate::commands::told_of;
use crate::error::{Failure, failure_text, report};
use crate::models::{Vaccin, VaccinPrerequis, VaccinSuite};
use crate::record::{all_of_reply, one_of_reply};
use crate::store::{Database, done, done_on_existing, inserted_id};
use crate::vaccin_service::{
    add_vaccin_prerequis, add_vaccin_suite, create_vaccin, delete_prerequis_statement,
    delete_suite_statement, delete_vaccin, delete_vaccin_prerequis, delete_vaccin_statement,
    delete_vaccin_suite, get_all_vaccins, get_vaccin_by_id, get_vaccin_prerequis, get_vaccin_suites,
    insert_prerequis, insert_suite, insert_vaccin, select_all_vaccins, select_prerequis,
    select_suites, select_vaccin_by_id, update_vaccin, update_vaccin_statement,
};

verus! {

/// Stores a new vaccine and gives its identifier.
pub fn vaccin_create(db: &mut Database, vaccin: Vaccin) -> (told: Result<i64, String>)
    ensures
        told_of(
            *old(db),
            *final(db),
            insert_vaccin(vaccin@),
            told,
            inserted_id(final(db).last_reply()),
        ),
{
    report(create_vaccin(db, &vaccin))
}

/// The vaccine with this identifier.
pub fn vaccin_get_by_id(db: &mut Database, vaccin_id: i64) -> (told: Result<Vaccin, String>)
    ensures
        told_of(
            *old(db),
            *final(db),
            select_vaccin_by_id(vaccin_id),
            told,
            one_of_reply::<Vaccin>(final(db).last_reply()),
        ),
{
    report(get_vaccin_by_id(db, vaccin_id))
}

/// Rewrites a stored vaccine.
pub fn vaccin_update(db: &mut Database, vaccin: Vaccin) -> (told: Result<(), String>)
    ensures
        vaccin.id is None ==> *final(db) == *old(db) && told is Err && told->Err_0@ == failure_text(
            Failure::MissingId,
        ),
        vaccin.id is Some ==> told_of(
            *old(db),
            *final(db),
            update_vaccin_statement(vaccin@),
            told,
            done_on_existing(final(db).last_reply()),
        ),
{
    report(update_vaccin(db, &vaccin))
}

/// Removes a vaccine.
pub fn vaccin_delete(db: &mut Database, vaccin_id: i64) -> (told: Result<(), String>)
    ensures
        told_of(
            *old(db),
            *final(db),
            delete_vaccin_statement(vaccin_id),
            told,
            done(final(db).last_reply()),
        ),
{
    report(delete_vaccin(db, vaccin_id))
}

/// All vaccines, by name.
pub fn vaccin_get_all(db: &mut Database) -> (told: Result<Vec<Vaccin>, String>)
    ensures
        told_of(
            *old(db),
            *final(db),
            select_all_vaccins(),
            told,
            all_of_reply::<Vaccin>(final(db).last_reply()),
        ),
{
    report(get_all_vaccins(db))
}

/// Records that one vaccine comes before another.
pub fn vaccin_add_prerequis(db: &mut Database, vaccin_id: i64, prerequis_id: i64, strict: bool) -> (told: Result<i64, String>)
    ensures
        told_of(
            *old(db),
            *final(db),
            insert_prerequis(vaccin_id, prerequis_id, strict),
            told,
            inserted_id(final(db).last_reply()),
        ),
{
    report(add_vaccin_prerequis(db, vaccin_id, prerequis_id, strict))
}

/// The vaccines that come before this one.
pub fn vaccin_get_prerequis(db: &mut Database, vaccin_id: i64) -> (told: Result<Vec<VaccinPrerequis>, String>)
    ensures
        told_of(
            *old(db),
            *final(db),
            select_prerequis(vaccin_id),
            told,
            all_of_reply::<VaccinPrerequis>(final(db).last_reply()),
        ),
{
    report(get_vaccin_prerequis(db, vaccin_id))
}

/// Removes the edge with this identifier.
pub fn vaccin_delete_prerequis(db: &mut Database, prerequis_id: i64) -> (told: Result<(), String>)
    ensures
        told_of(
            *old(db),
            *final(db),
            delete_prerequis_statement(prerequis_id),
            told,
            done(final(db).last_reply()),
        ),
{
    report(delete_vaccin_prerequis(db, prerequis_id))
}

/// Records a vaccine that follows another.
pub fn vaccin_add_suite(db: &mut Database, suite: VaccinSuite) -> (told: Result<i64, String>)
    ensures
        told_of(
            *old(db),
            *final(db),
            insert_suite(suite@),
            told,
            inserted_id(final(db).last_reply()),
        ),
{
    report(add_vaccin_suite(db, &suite))
}

/// The vaccines that follow this one.
pub fn vaccin_get_suites(db: &mut Database, vaccin_id: i64) -> (told: Result<Vec<VaccinSuite>, String>)
    ensures
        told_of(
            *old(db),
            *final(db),
            select_suites(vaccin_id),
            told,
            all_of_reply::<VaccinSuite>(final(db).last_reply()),
        ),
{
    report(get_vaccin_suites(db, vaccin_id))
}

/// Removes the edge with this identifier.
pub fn vaccin_delete_suite(db: &mut Database, suite_id: i64) -> (told: Result<(), String>)
    ensures
        told_of(
            *old(db),
            *final(db),
            delete_suite_statement(suite_id),
            told,
            done(final(db).last_reply()),
        ),
{
    report(delete_vaccin_suite(db, suite_id))
}

} // verus!
