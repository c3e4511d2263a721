//! Doses given to children.

use vstd::prelude::*;
use crate::dates::{date_datum, date_value};
use crate::error::DbError;
use crate::models::{Vaccination, VaccinationView};
use crate::record::{
    all_of_reply, answered, change, change_existing, fetch_all, fetch_one, insert, one_of_reply,
};
use crate::store::{Database, Statement, done, done_on_existing, inserted_id};
use crate::value::{SqlValue, SqlDatum, integer_or_null, text_or_null};

verus! {

pub const INSERT_VACCINATION: &'static str =
    "INSERT INTO vaccinations (enfant_id, vaccin_id, date_vaccination, remarque) VALUES (?1, ?2, ?3, ?4)";

pub const SELECT_VACCINATION_BY_ID: &'static str =
    "SELECT id, enfant_id, vaccin_id, date_vaccination, remarque, created_at, updated_at FROM vaccinations WHERE id = ?1";

pub const SELECT_ALL_VACCINATIONS: &'static str =
    "SELECT id, enfant_id, vaccin_id, date_vaccination, remarque, created_at, updated_at FROM vaccinations ORDER BY date_vaccination DESC";

pub const SELECT_VACCINATIONS_BY_ENFANT: &'static str =
    "SELECT id, enfant_id, vaccin_id, date_vaccination, remarque, created_at, updated_at FROM vaccinations WHERE enfant_id = ?1 ORDER BY date_vaccination DESC";

pub const SELECT_VACCINATIONS_BY_VACCIN: &'static str =
    "SELECT id, enfant_id, vaccin_id, date_vaccination, remarque, created_at, updated_at FROM vaccinations WHERE vaccin_id = ?1 ORDER BY date_vaccination DESC";

pub const UPDATE_VACCINATION: &'static str =
    "UPDATE vaccinations SET enfant_id = ?1, vaccin_id = ?2, date_vaccination = ?3, remarque = ?4, updated_at = CURRENT_TIMESTAMP WHERE id = ?5";

pub const DELETE_VACCINATION: &'static str = "DELETE FROM vaccinations WHERE id = ?1";

/// The values of a vaccination in the order of the columns that are written.
pub open spec fn vaccination_values(vaccination: VaccinationView) -> Seq<SqlDatum> {
    seq![
        SqlDatum::Integer(vaccination.enfant_id),
        SqlDatum::Integer(vaccination.vaccin_id),
        date_datum(vaccination.date_vaccination),
        text_or_null(vaccination.remarque),
    ]
}

pub open spec fn insert_vaccination(vaccination: VaccinationView) -> Statement {
    Statement { sql: INSERT_VACCINATION@, params: vaccination_values(vaccination) }
}

pub open spec fn select_vaccination_by_id(vaccination_id: i64) -> Statement {
    Statement { sql: SELECT_VACCINATION_BY_ID@, params: seq![SqlDatum::Integer(vaccination_id)] }
}

pub open spec fn select_all_vaccinations() -> Statement {
    Statement { sql: SELECT_ALL_VACCINATIONS@, params: Seq::empty() }
}

pub open spec fn select_vaccinations_by_enfant(enfant_id: i64) -> Statement {
    Statement { sql: SELECT_VACCINATIONS_BY_ENFANT@, params: seq![SqlDatum::Integer(enfant_id)] }
}

pub open spec fn select_vaccinations_by_vaccin(vaccin_id: i64) -> Statement {
    Statement { sql: SELECT_VACCINATIONS_BY_VACCIN@, params: seq![SqlDatum::Integer(vaccin_id)] }
}

pub open spec fn update_vaccination_statement(vaccination: VaccinationView) -> Statement {
    Statement {
        sql: UPDATE_VACCINATION@,
        params: vaccination_values(vaccination).push(integer_or_null(vaccination.id)),
    }
}

pub open spec fn delete_vaccination_statement(vaccination_id: i64) -> Statement {
    Statement { sql: DELETE_VACCINATION@, params: seq![SqlDatum::Integer(vaccination_id)] }
}

fn vaccination_params(vaccination: &Vaccination) -> (params: Vec<SqlValue>)
    ensures
        params.deep_view() == vaccination_values(vaccination@),
{
    let params = vec![
        SqlValue::Integer(vaccination.enfant_id),
        SqlValue::Integer(vaccination.vaccin_id),
        date_value(&vaccination.date_vaccination),
        SqlValue::optional_text(&vaccination.remarque),
    ];
    assert(params.deep_view() =~= vaccination_values(vaccination@));
    params
}

/// Stores a new vaccination and gives its identifier.
pub fn create_vaccination(db: &mut Database, vaccination: &Vaccination) -> (id: Result<i64, DbError>)
    ensures
        answered(
            *old(db),
            *final(db),
            insert_vaccination(vaccination@),
            id,
            inserted_id(final(db).last_reply()),
        ),
{
    let params = vaccination_params(vaccination);
    insert(db, INSERT_VACCINATION, &params)
}

/// The vaccination with this identifier; `NotFound` where there is none.
pub fn get_vaccination_by_id(db: &mut Database, vaccination_id: i64) -> (found: Result<Vaccination, DbError>)
    ensures
        answered(
            *old(db),
            *final(db),
            select_vaccination_by_id(vaccination_id),
            found,
            one_of_reply::<Vaccination>(final(db).last_reply()),
        ),
{
    let params = vec![SqlValue::Integer(vaccination_id)];
    assert(params.deep_view() =~= select_vaccination_by_id(vaccination_id).params);
    fetch_one::<Vaccination>(db, SELECT_VACCINATION_BY_ID, &params)
}

/// Rewrites a stored vaccination. Fails with `MissingId`, asking nothing of
/// the store, where the record has no identifier, and with `NotFound` where
/// the store has no vaccination with it.
pub fn update_vaccination(db: &mut Database, vaccination: &Vaccination) -> (updated: Result<(), DbError>)
    ensures
        vaccination.id is None ==> *final(db) == *old(db) && updated matches Err(DbError::MissingId),
        vaccination.id is Some ==> answered(
            *old(db),
            *final(db),
            update_vaccination_statement(vaccination@),
            updated,
            done_on_existing(final(db).last_reply()),
        ),
{
    if vaccination.id.is_none() {
        return Err(DbError::MissingId);
    }
    let mut params = vaccination_params(vaccination);
    let ghost values = params.deep_view();
    params.push(SqlValue::optional_integer(vaccination.id));
    assert(params.deep_view() =~= values.push(integer_or_null(vaccination.id)));
    change_existing(db, UPDATE_VACCINATION, &params)
}

/// Removes a vaccination.
pub fn delete_vaccination(db: &mut Database, vaccination_id: i64) -> (deleted: Result<(), DbError>)
    ensures
        answered(
            *old(db),
            *final(db),
            delete_vaccination_statement(vaccination_id),
            deleted,
            done(final(db).last_reply()),
        ),
{
    let params = vec![SqlValue::Integer(vaccination_id)];
    assert(params.deep_view() =~= delete_vaccination_statement(vaccination_id).params);
    change(db, DELETE_VACCINATION, &params)
}

/// All vaccinations, the latest first.
pub fn get_all_vaccinations(db: &mut Database) -> (found: Result<Vec<Vaccination>, DbError>)
    ensures
        answered(
            *old(db),
            *final(db),
            select_all_vaccinations(),
            found,
            all_of_reply::<Vaccination>(final(db).last_reply()),
        ),
{
    let params: Vec<SqlValue> = Vec::new();
    assert(params.deep_view() =~= select_all_vaccinations().params);
    fetch_all::<Vaccination>(db, SELECT_ALL_VACCINATIONS, &params)
}

/// The vaccinations of a child, the latest first.
pub fn get_vaccinations_by_enfant(db: &mut Database, enfant_id: i64) -> (found: Result<Vec<Vaccination>, DbError>)
    ensures
        answered(
            *old(db),
            *final(db),
            select_vaccinations_by_enfant(enfant_id),
            found,
            all_of_reply::<Vaccination>(final(db).last_reply()),
        ),
{
    let params = vec![SqlValue::Integer(enfant_id)];
    assert(params.deep_view() =~= select_vaccinations_by_enfant(enfant_id).params);
    fetch_all::<Vaccination>(db, SELECT_VACCINATIONS_BY_ENFANT, &params)
}

/// The vaccinations with a vaccine, the latest first.
pub fn get_vaccinations_by_vaccin(db: &mut Database, vaccin_id: i64) -> (found: Result<Vec<Vaccination>, DbError>)
    ensures
        answered(
            *old(db),
            *final(db),
            select_vaccinations_by_vaccin(vaccin_id),
            found,
            all_of_reply::<Vaccination>(final(db).last_reply()),
        ),
{
    let params = vec![SqlValue::Integer(vaccin_id)];
    assert(params.deep_view() =~= select_vaccinations_by_vaccin(vaccin_id).params);
    fetch_all::<Vaccination>(db, SELECT_VACCINATIONS_BY_VACCIN, &params)
}

} // verus!
