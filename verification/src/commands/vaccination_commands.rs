//! What the host asks about vaccinations.

use vstd::prelude::*;
use crate::commands::told_of;
use crate::error::{Failure, failure_text, report};
use crate::models::Vaccination;
use crate::record::{all_of_reply, one_of_reply};
use crate::store::{Database, done, done_on_existing, inserted_id};
use crate::vaccination_service::{
    create_vaccination, delete_vaccination, delete_vaccination_statement, get_all_vaccinations,
    get_vaccination_by_id, get_vaccinations_by_enfant, get_vaccinations_by_vaccin,
    insert_vaccination, select_all_vaccinations, select_vaccination_by_id,
    select_vaccinations_by_enfant, select_vaccinations_by_vaccin, update_vaccination,
    update_vaccination_statement,
};

verus! {

/// Stores a new vaccination and gives its identifier.
pub fn vaccination_create(db: &mut Database, vaccination: Vaccination) -> (told: Result<i64, String>)
    ensures
        told_of(
            *old(db),
            *final(db),
            insert_vaccination(vaccination@),
            told,
            inserted_id(final(db).last_reply()),
        ),
{
    report(create_vaccination(db, &vaccination))
}

/// The vaccination with this identifier.
pub fn vaccination_get_by_id(db: &mut Database, vaccination_id: i64) -> (told: Result<Vaccination, String>)
    ensures
        told_of(
            *old(db),
            *final(db),
            select_vaccination_by_id(vaccination_id),
            told,
            one_of_reply::<Vaccination>(final(db).last_reply()),
        ),
{
    report(get_vaccination_by_id(db, vaccination_id))
}

/// Rewrites a stored vaccination.
pub fn vaccination_update(db: &mut Database, vaccination: Vaccination) -> (told: Result<(), String>)
    ensures
        vaccination.id is None ==> *final(db) == *old(db) && told is Err && told->Err_0@ == failure_text(
            Failure::MissingId,
        ),
        vaccination.id is Some ==> told_of(
            *old(db),
            *final(db),
            update_vaccination_statement(vaccination@),
            told,
            done_on_existing(final(db).last_reply()),
        ),
{
    report(update_vaccination(db, &vaccination))
}

/// Removes a vaccination.
pub fn vaccination_delete(db: &mut Database, vaccination_id: i64) -> (told: Result<(), String>)
    ensures
        told_of(
            *old(db),
            *final(db),
            delete_vaccination_statement(vaccination_id),
            told,
            done(final(db).last_reply()),
        ),
{
    report(delete_vaccination(db, vaccination_id))
}

/// All vaccinations, the latest first.
pub fn vaccination_get_all(db: &mut Database) -> (told: Result<Vec<Vaccination>, String>)
    ensures
        told_of(
            *old(db),
            *final(db),
            select_all_vaccinations(),
            told,
            all_of_reply::<Vaccination>(final(db).last_reply()),
        ),
{
    report(get_all_vaccinations(db))
}

/// The vaccinations of a child, the latest first.
pub fn vaccination_get_by_enfant(db: &mut Database, enfant_id: i64) -> (told: Result<Vec<Vaccination>, String>)
    ensures
        told_of(
            *old(db),
            *final(db),
            select_vaccinations_by_enfant(enfant_id),
            told,
            all_of_reply::<Vaccination>(final(db).last_reply()),
        ),
{
    report(get_vaccinations_by_enfant(db, enfant_id))
}

/// The vaccinations with a vaccine, the latest first.
pub fn vaccination_get_by_vaccin(db: &mut Database, vaccin_id: i64) -> (told: Result<Vec<Vaccination>, String>)
    ensures
        told_of(
            *old(db),
            *final(db),
            select_vaccinations_by_vaccin(vaccin_id),
            told,
            all_of_reply::<Vaccination>(final(db).last_reply()),
        ),
{
    report(get_vaccinations_by_vaccin(db, vaccin_id))
}

} // verus!
