//! Vaccines, and the edges between them: what must come before a vaccine and
//! what follows it.

use vstd::prelude::*;
use crate::columns::{
    ColumnKind, as_optional_instant, fits, holds_at, lemma_first_misfit, lemma_no_misfit_conforms,
};
use crate::dates::{date_of_text, date_or_null, optional_date_value};
use crate::error::{DbError, Failure};
use crate::models::{Vaccin, VaccinPrerequis, VaccinSuite, VaccinSuiteView, VaccinView};
use crate::record::{
    Record, all_of_reply, answered, change, change_existing, fetch_all, fetch_one, insert,
    one_of_reply, record_of_row,
};
use crate::store::{Database, Statement, done, done_on_existing, inserted_id};
use crate::value::{SqlValue, SqlDatum, flag, integer_or_null, text_or_null};

verus! {

pub const INSERT_VACCIN: &'static str =
    "INSERT INTO vaccins (nom, duree, date_arrivee, date_peremption, description, duree_jours, age_annees, age_mois, age_jours, lot, stock) VALUES (?1, ?2, ?3, ?4, ?5, ?6, ?7, ?8, ?9, ?10, ?11)";

pub const SELECT_VACCIN_BY_ID: &'static str =
    "SELECT id, nom, duree, date_arrivee, date_peremption, description, created_at, updated_at, duree_jours, age_annees, age_mois, age_jours, lot, stock FROM vaccins WHERE id = ?1";

pub const SELECT_ALL_VACCINS: &'static str =
    "SELECT id, nom, duree, date_arrivee, date_peremption, description, created_at, updated_at, duree_jours, age_annees, age_mois, age_jours, lot, stock FROM vaccins ORDER BY nom";

pub const UPDATE_VACCIN: &'static str =
    "UPDATE vaccins SET nom = ?1, duree = ?2, date_arrivee = ?3, date_peremption = ?4, description = ?5, duree_jours = ?6, age_annees = ?7, age_mois = ?8, age_jours = ?9, lot = ?10, stock = ?11, updated_at = CURRENT_TIMESTAMP WHERE id = ?12";

pub const DELETE_VACCIN: &'static str = "DELETE FROM vaccins WHERE id = ?1";

pub const INSERT_PREREQUIS: &'static str =
    "INSERT INTO vaccin_prerequis (vaccin_id, prerequis_id, strict) VALUES (?1, ?2, ?3)";

pub const SELECT_PREREQUIS: &'static str =
    "SELECT id, vaccin_id, prerequis_id, strict FROM vaccin_prerequis WHERE vaccin_id = ?1";

pub const DELETE_PREREQUIS: &'static str = "DELETE FROM vaccin_prerequis WHERE id = ?1";

pub const INSERT_SUITE: &'static str =
    "INSERT INTO vaccin_suite (vaccin_id, suite_id, strict, delai, type, description) VALUES (?1, ?2, ?3, ?4, ?5, ?6)";

pub const SELECT_SUITES: &'static str =
    "SELECT id, vaccin_id, suite_id, strict, delai, type, description FROM vaccin_suite WHERE vaccin_id = ?1";

pub const DELETE_SUITE: &'static str = "DELETE FROM vaccin_suite WHERE id = ?1";

/// The stock that is stored: 0 where none is given.
pub open spec fn stock_or_zero(stock: Option<i64>) -> i64 {
    match stock {
        Some(n) => n,
        None => 0,
    }
}

/// The values of a vaccine in the order of the columns that are written.
pub open spec fn vaccin_values(vaccin: VaccinView) -> Seq<SqlDatum> {
    seq![
        SqlDatum::Text(vaccin.nom),
        integer_or_null(vaccin.duree),
        date_or_null(vaccin.date_arrivee),
        date_or_null(vaccin.date_peremption),
        text_or_null(vaccin.description),
        integer_or_null(vaccin.duree_jours),
        SqlDatum::Integer(vaccin.age_annees),
        SqlDatum::Integer(vaccin.age_mois),
        SqlDatum::Integer(vaccin.age_jours),
        text_or_null(vaccin.lot),
        SqlDatum::Integer(stock_or_zero(vaccin.stock)),
    ]
}

pub open spec fn insert_vaccin(vaccin: VaccinView) -> Statement {
    Statement { sql: INSERT_VACCIN@, params: vaccin_values(vaccin) }
}

pub open spec fn select_vaccin_by_id(vaccin_id: i64) -> Statement {
    Statement { sql: SELECT_VACCIN_BY_ID@, params: seq![SqlDatum::Integer(vaccin_id)] }
}

pub open spec fn select_all_vaccins() -> Statement {
    Statement { sql: SELECT_ALL_VACCINS@, params: Seq::empty() }
}

pub open spec fn update_vaccin_statement(vaccin: VaccinView) -> Statement {
    Statement { sql: UPDATE_VACCIN@, params: vaccin_values(vaccin).push(integer_or_null(vaccin.id)) }
}

pub open spec fn delete_vaccin_statement(vaccin_id: i64) -> Statement {
    Statement { sql: DELETE_VACCIN@, params: seq![SqlDatum::Integer(vaccin_id)] }
}

pub open spec fn insert_prerequis(vaccin_id: i64, prerequis_id: i64, strict: bool) -> Statement {
    Statement {
        sql: INSERT_PREREQUIS@,
        params: seq![SqlDatum::Integer(vaccin_id), SqlDatum::Integer(prerequis_id), flag(strict)],
    }
}

pub open spec fn select_prerequis(vaccin_id: i64) -> Statement {
    Statement { sql: SELECT_PREREQUIS@, params: seq![SqlDatum::Integer(vaccin_id)] }
}

pub open spec fn delete_prerequis_statement(prerequis_id: i64) -> Statement {
    Statement { sql: DELETE_PREREQUIS@, params: seq![SqlDatum::Integer(prerequis_id)] }
}

pub open spec fn insert_suite(suite: VaccinSuiteView) -> Statement {
    Statement {
        sql: INSERT_SUITE@,
        params: seq![
            SqlDatum::Integer(suite.vaccin_id),
            SqlDatum::Integer(suite.suite_id),
            flag(suite.strict),
            SqlDatum::Integer(suite.delai),
            SqlDatum::Text(suite.type_suite),
            text_or_null(suite.description),
        ],
    }
}

pub open spec fn select_suites(vaccin_id: i64) -> Statement {
    Statement { sql: SELECT_SUITES@, params: seq![SqlDatum::Integer(vaccin_id)] }
}

pub open spec fn delete_suite_statement(suite_id: i64) -> Statement {
    Statement { sql: DELETE_SUITE@, params: seq![SqlDatum::Integer(suite_id)] }
}

fn vaccin_params(vaccin: &Vaccin) -> (params: Vec<SqlValue>)
    ensures
        params.deep_view() == vaccin_values(vaccin@),
{
    let stock: i64 = match vaccin.stock {
        Some(n) => n,
        None => 0,
    };
    let params = vec![
        SqlValue::text(vaccin.nom.as_str()),
        SqlValue::optional_integer(vaccin.duree),
        optional_date_value(&vaccin.date_arrivee),
        optional_date_value(&vaccin.date_peremption),
        SqlValue::optional_text(&vaccin.description),
        SqlValue::optional_integer(vaccin.duree_jours),
        SqlValue::Integer(vaccin.age_annees),
        SqlValue::Integer(vaccin.age_mois),
        SqlValue::Integer(vaccin.age_jours),
        SqlValue::optional_text(&vaccin.lot),
        SqlValue::Integer(stock),
    ];
    assert(params.deep_view() =~= vaccin_values(vaccin@));
    params
}

/// Stores a new vaccine and gives its identifier. A vaccine without a stock
/// is stored with the stock 0.
pub fn create_vaccin(db: &mut Database, vaccin: &Vaccin) -> (id: Result<i64, DbError>)
    ensures
        answered(*old(db), *final(db), insert_vaccin(vaccin@), id, inserted_id(final(db).last_reply())),
{
    let params = vaccin_params(vaccin);
    insert(db, INSERT_VACCIN, &params)
}

/// The vaccine with this identifier; `NotFound` where there is none.
pub fn get_vaccin_by_id(db: &mut Database, vaccin_id: i64) -> (found: Result<Vaccin, DbError>)
    ensures
        answered(
            *old(db),
            *final(db),
            select_vaccin_by_id(vaccin_id),
            found,
            one_of_reply::<Vaccin>(final(db).last_reply()),
        ),
{
    let params = vec![SqlValue::Integer(vaccin_id)];
    assert(params.deep_view() =~= select_vaccin_by_id(vaccin_id).params);
    fetch_one::<Vaccin>(db, SELECT_VACCIN_BY_ID, &params)
}

/// Rewrites a stored vaccine. Fails with `MissingId`, asking nothing of the
/// store, where the record has no identifier, and with `NotFound` where the
/// store has no vaccine with it.
pub fn update_vaccin(db: &mut Database, vaccin: &Vaccin) -> (updated: Result<(), DbError>)
    ensures
        vaccin.id is None ==> *final(db) == *old(db) && updated matches Err(DbError::MissingId),
        vaccin.id is Some ==> answered(
            *old(db),
            *final(db),
            update_vaccin_statement(vaccin@),
            updated,
            done_on_existing(final(db).last_reply()),
        ),
{
    if vaccin.id.is_none() {
        return Err(DbError::MissingId);
    }
    let mut params = vaccin_params(vaccin);
    let ghost values = params.deep_view();
    params.push(SqlValue::optional_integer(vaccin.id));
    assert(params.deep_view() =~= values.push(integer_or_null(vaccin.id)));
    change_existing(db, UPDATE_VACCIN, &params)
}

/// Removes a vaccine.
pub fn delete_vaccin(db: &mut Database, vaccin_id: i64) -> (deleted: Result<(), DbError>)
    ensures
        answered(*old(db), *final(db), delete_vaccin_statement(vaccin_id), deleted, done(final(db).last_reply())),
{
    let params = vec![SqlValue::Integer(vaccin_id)];
    assert(params.deep_view() =~= delete_vaccin_statement(vaccin_id).params);
    change(db, DELETE_VACCIN, &params)
}

/// All vaccines, by name.
pub fn get_all_vaccins(db: &mut Database) -> (found: Result<Vec<Vaccin>, DbError>)
    ensures
        answered(
            *old(db),
            *final(db),
            select_all_vaccins(),
            found,
            all_of_reply::<Vaccin>(final(db).last_reply()),
        ),
{
    let params: Vec<SqlValue> = Vec::new();
    assert(params.deep_view() =~= select_all_vaccins().params);
    fetch_all::<Vaccin>(db, SELECT_ALL_VACCINS, &params)
}

/// Records that `prerequis_id` comes before `vaccin_id`; nothing is checked
/// of the two vaccines or of the edges that exist already.
pub fn add_vaccin_prerequis(db: &mut Database, vaccin_id: i64, prerequis_id: i64, strict: bool) -> (id: Result<
    i64,
    DbError,
>)
    ensures
        answered(
            *old(db),
            *final(db),
            insert_prerequis(vaccin_id, prerequis_id, strict),
            id,
            inserted_id(final(db).last_reply()),
        ),
{
    let params = vec![SqlValue::Integer(vaccin_id), SqlValue::Integer(prerequis_id), SqlValue::flag(strict)];
    assert(params.deep_view() =~= insert_prerequis(vaccin_id, prerequis_id, strict).params);
    insert(db, INSERT_PREREQUIS, &params)
}

/// The vaccines that come before this one.
pub fn get_vaccin_prerequis(db: &mut Database, vaccin_id: i64) -> (found: Result<Vec<VaccinPrerequis>, DbError>)
    ensures
        answered(
            *old(db),
            *final(db),
            select_prerequis(vaccin_id),
            found,
            all_of_reply::<VaccinPrerequis>(final(db).last_reply()),
        ),
{
    let params = vec![SqlValue::Integer(vaccin_id)];
    assert(params.deep_view() =~= select_prerequis(vaccin_id).params);
    fetch_all::<VaccinPrerequis>(db, SELECT_PREREQUIS, &params)
}

/// Removes the edge with this identifier.
pub fn delete_vaccin_prerequis(db: &mut Database, prerequis_id: i64) -> (deleted: Result<(), DbError>)
    ensures
        answered(
            *old(db),
            *final(db),
            delete_prerequis_statement(prerequis_id),
            deleted,
            done(final(db).last_reply()),
        ),
{
    let params = vec![SqlValue::Integer(prerequis_id)];
    assert(params.deep_view() =~= delete_prerequis_statement(prerequis_id).params);
    change(db, DELETE_PREREQUIS, &params)
}

/// Records a vaccine that follows another; nothing is checked of the two
/// vaccines or of the edges that exist already.
pub fn add_vaccin_suite(db: &mut Database, suite: &VaccinSuite) -> (id: Result<i64, DbError>)
    ensures
        answered(*old(db), *final(db), insert_suite(suite@), id, inserted_id(final(db).last_reply())),
{
    let params = vec![
        SqlValue::Integer(suite.vaccin_id),
        SqlValue::Integer(suite.suite_id),
        SqlValue::flag(suite.strict),
        SqlValue::Integer(suite.delai),
        SqlValue::text(suite.type_suite.as_str()),
        SqlValue::optional_text(&suite.description),
    ];
    assert(params.deep_view() =~= insert_suite(suite@).params);
    insert(db, INSERT_SUITE, &params)
}

/// The vaccines that follow this one.
pub fn get_vaccin_suites(db: &mut Database, vaccin_id: i64) -> (found: Result<Vec<VaccinSuite>, DbError>)
    ensures
        answered(
            *old(db),
            *final(db),
            select_suites(vaccin_id),
            found,
            all_of_reply::<VaccinSuite>(final(db).last_reply()),
        ),
{
    let params = vec![SqlValue::Integer(vaccin_id)];
    assert(params.deep_view() =~= select_suites(vaccin_id).params);
    fetch_all::<VaccinSuite>(db, SELECT_SUITES, &params)
}

/// Removes the edge with this identifier.
pub fn delete_vaccin_suite(db: &mut Database, suite_id: i64) -> (deleted: Result<(), DbError>)
    ensures
        answered(*old(db), *final(db), delete_suite_statement(suite_id), deleted, done(final(db).last_reply())),
{
    let params = vec![SqlValue::Integer(suite_id)];
    assert(params.deep_view() =~= delete_suite_statement(suite_id).params);
    change(db, DELETE_SUITE, &params)
}

/// The row that the store holds for a vaccine once `values` were written
/// under the identifier `id`: the written columns, with the identifier before
/// them and the two dates that the store assigns in their place.
pub open spec fn stored_vaccin_row(
    id: i64,
    values: Seq<SqlDatum>,
    created_at: SqlDatum,
    updated_at: SqlDatum,
) -> Seq<SqlDatum> {
    seq![
        SqlDatum::Integer(id),
        values[0],
        values[1],
        values[2],
        values[3],
        values[4],
        created_at,
        updated_at,
        values[5],
        values[6],
        values[7],
        values[8],
        values[9],
        values[10],
    ]
}

/// A vaccine without any of its optional fields reads back as it was
/// written: the optional fields are absent still, none turned into 0 or into
/// an empty text, but for the stock, which is 0.
pub proof fn lemma_bare_vaccin_reads_back(vaccin: VaccinView, id: i64, created_at: SqlDatum, updated_at: SqlDatum)
    requires
        vaccin.duree is None,
        vaccin.date_arrivee is None,
        vaccin.date_peremption is None,
        vaccin.description is None,
        vaccin.duree_jours is None,
        vaccin.lot is None,
        vaccin.stock is None,
        fits(created_at, ColumnKind::OptionalInstant),
        fits(updated_at, ColumnKind::OptionalInstant),
    ensures
        record_of_row::<Vaccin>(
            stored_vaccin_row(id, insert_vaccin(vaccin).params, created_at, updated_at),
        ) == Ok::<VaccinView, Failure>(
            VaccinView {
                id: Some(id),
                stock: Some(0),
                created_at: as_optional_instant(created_at),
                updated_at: as_optional_instant(updated_at),
                ..vaccin
            },
        ),
{
    let row = stored_vaccin_row(id, insert_vaccin(vaccin).params, created_at, updated_at);
    let kinds = Vaccin::kinds();
    assert forall|i: int| 0 <= i < kinds.len() implies fits(#[trigger] row[i], kinds[i]) by {
        if i == 0 {
        } else if i == 1 {
        } else if i == 2 {
        } else if i == 3 {
        } else if i == 4 {
        } else if i == 5 {
        } else if i == 6 {
        } else if i == 7 {
        } else if i == 8 {
        } else if i == 9 {
        } else if i == 10 {
        } else if i == 11 {
        } else if i == 12 {
        } else {
        }
    }
    lemma_no_misfit_conforms(row, kinds);
}

/// A vaccine whose stored arrival or expiry date is a text that holds no
/// date is not read: the row gives the failure that names the column of that
/// date, never a vaccine without the date.
pub proof fn lemma_bad_vaccin_date_is_malformed(row: Seq<SqlDatum>, column: int)
    requires
        column == 3 || column == 4,
        forall|i: int| 0 <= i < column ==> #[trigger] holds_at(row, Vaccin::kinds(), i),
        column < row.len(),
        row[column] matches SqlDatum::Text(text) && date_of_text(text) is None,
    ensures
        record_of_row::<Vaccin>(row) == Err::<VaccinView, Failure>(
            Failure::Malformed { column: column as usize },
        ),
{
    lemma_first_misfit(row, Vaccin::kinds(), column);
}

} // verus!
