//! Sub-areas.

use vstd::prelude::*;
use crate::error::{DbError, Failure, outcome_view};
use crate::models::{Hameau, HameauView};
use crate::record::{
    all_of_reply, answered, change_existing, fetch_all, fetch_one, fetch_optional, insert, one_of_reply,
    optional_of_reply,
};
use crate::store::{Database, Exchange, Statement, done, done_on_existing, inserted_id};
use crate::transaction::{
    Prepared, begin, finish, in_transaction, lemma_committed, lemma_in_transaction,
    lemma_not_begun, transacted, write_in_order, wrote_in_order,
};
use crate::value::{SqlValue, SqlDatum, integer_or_null};

verus! {

pub const INSERT_HAMEAU: &'static str = "INSERT INTO hameau (nom, px, py) VALUES (?1, ?2, ?3)";

pub const SELECT_HAMEAU_BY_ID: &'static str =
    "SELECT id, nom, px, py, created_at, updated_at FROM hameau WHERE id = ?1";

pub const SELECT_HAMEAU_BY_NAME: &'static str =
    "SELECT id, nom, px, py, created_at, updated_at FROM hameau WHERE nom = ?1";

pub const SELECT_ALL_HAMEAU: &'static str =
    "SELECT id, nom, px, py, created_at, updated_at FROM hameau ORDER BY nom";

pub const UPDATE_HAMEAU: &'static str =
    "UPDATE hameau SET nom = ?1, px = ?2, py = ?3, updated_at = CURRENT_TIMESTAMP WHERE id = ?4";

/// Clears the name of a sub-area in every child that refers to it.
pub const DETACH_HAMEAU: &'static str =
    "UPDATE enfants SET hameau = NULL WHERE hameau = (SELECT nom FROM hameau WHERE id = ?1)";

pub const DELETE_HAMEAU: &'static str = "DELETE FROM hameau WHERE id = ?1";

/// The values of a sub-area in the order of the columns that are written. A
/// coordinate is bound as its decimal numeral.
pub open spec fn hameau_values(hameau: HameauView) -> Seq<SqlDatum> {
    seq![SqlDatum::Text(hameau.nom), SqlDatum::Text(hameau.px), SqlDatum::Text(hameau.py)]
}

pub open spec fn insert_hameau(hameau: HameauView) -> Statement {
    Statement { sql: INSERT_HAMEAU@, params: hameau_values(hameau) }
}

pub open spec fn select_hameau_by_id(id: i64) -> Statement {
    Statement { sql: SELECT_HAMEAU_BY_ID@, params: seq![SqlDatum::Integer(id)] }
}

pub open spec fn select_hameau_by_name(name: Seq<char>) -> Statement {
    Statement { sql: SELECT_HAMEAU_BY_NAME@, params: seq![SqlDatum::Text(name)] }
}

pub open spec fn select_all_hameau() -> Statement {
    Statement { sql: SELECT_ALL_HAMEAU@, params: Seq::empty() }
}

pub open spec fn update_hameau_statement(hameau: HameauView) -> Statement {
    Statement { sql: UPDATE_HAMEAU@, params: hameau_values(hameau).push(integer_or_null(hameau.id)) }
}

pub open spec fn detach_hameau(id: i64) -> Statement {
    Statement { sql: DETACH_HAMEAU@, params: seq![SqlDatum::Integer(id)] }
}

pub open spec fn delete_hameau_statement(id: i64) -> Statement {
    Statement { sql: DELETE_HAMEAU@, params: seq![SqlDatum::Integer(id)] }
}

/// What deleting a sub-area asks of the store: first that the children let go
/// of its name, then that it be removed.
pub open spec fn delete_hameau_statements(id: i64) -> Seq<Statement> {
    seq![detach_hameau(id), delete_hameau_statement(id)]
}

fn hameau_params(hameau: &Hameau) -> (params: Vec<SqlValue>)
    ensures
        params.deep_view() == hameau_values(hameau@),
{
    let params = vec![
        SqlValue::text(hameau.nom.as_str()),
        SqlValue::text(hameau.px.as_str()),
        SqlValue::text(hameau.py.as_str()),
    ];
    assert(params.deep_view() =~= hameau_values(hameau@));
    params
}

/// Stores a new record and gives its identifier.
pub fn create_hameau(db: &mut Database, hameau: &Hameau) -> (id: Result<i64, DbError>)
    ensures
        answered(*old(db), *final(db), insert_hameau(hameau@), id, inserted_id(final(db).last_reply())),
{
    let params = hameau_params(hameau);
    insert(db, INSERT_HAMEAU, &params)
}

/// The record with this identifier; `NotFound` where there is none.
pub fn get_hameau_by_id(db: &mut Database, id: i64) -> (found: Result<Hameau, DbError>)
    ensures
        answered(
            *old(db),
            *final(db),
            select_hameau_by_id(id),
            found,
            one_of_reply::<Hameau>(final(db).last_reply()),
        ),
{
    let params = vec![SqlValue::Integer(id)];
    assert(params.deep_view() =~= select_hameau_by_id(id).params);
    fetch_one::<Hameau>(db, SELECT_HAMEAU_BY_ID, &params)
}

/// The record with this name, if there is one.
pub fn get_hameau_by_name(db: &mut Database, name: &str) -> (found: Result<Option<Hameau>, DbError>)
    ensures
        answered(
            *old(db),
            *final(db),
            select_hameau_by_name(name@),
            found,
            optional_of_reply::<Hameau>(final(db).last_reply()),
        ),
{
    let params = vec![SqlValue::text(name)];
    assert(params.deep_view() =~= select_hameau_by_name(name@).params);
    fetch_optional::<Hameau>(db, SELECT_HAMEAU_BY_NAME, &params)
}

/// Rewrites a stored record. Fails with `MissingId`, asking nothing of the
/// store, where the record has no identifier, and with `NotFound` where the
/// store has no record with it.
pub fn update_hameau(db: &mut Database, hameau: &Hameau) -> (updated: Result<(), DbError>)
    ensures
        hameau.id is None ==> *final(db) == *old(db) && updated matches Err(DbError::MissingId),
        hameau.id is Some ==> answered(
            *old(db),
            *final(db),
            update_hameau_statement(hameau@),
            updated,
            done_on_existing(final(db).last_reply()),
        ),
{
    if hameau.id.is_none() {
        return Err(DbError::MissingId);
    }
    let mut params = hameau_params(hameau);
    let ghost values = params.deep_view();
    params.push(SqlValue::optional_integer(hameau.id));
    assert(params.deep_view() =~= values.push(integer_or_null(hameau.id)));
    change_existing(db, UPDATE_HAMEAU, &params)
}

/// Removes a sub-area, in one transaction with the children that refer to it
/// by name: they keep no reference to it.
pub fn delete_hameau(db: &mut Database, id: i64) -> (deleted: Result<(), DbError>)
    ensures
        in_transaction(
            *old(db),
            *final(db),
            outcome_view(deleted),
            |steps: Seq<Exchange>, inner: Result<(), Failure>|
                wrote_in_order(delete_hameau_statements(id), steps, inner),
        ),
{
    let ghost start = *db;
    let ghost body = |steps: Seq<Exchange>, inner: Result<(), Failure>|
        wrote_in_order(delete_hameau_statements(id), steps, inner);
    match begin(db) {
        Ok(()) => {},
        Err(failure) => {
            proof {
                lemma_not_begun::<()>(start, *db, failure@, body);
            }
            return Err(failure);
        },
    }
    let ghost begun = *db;
    let statements = vec![
        Prepared { sql: DETACH_HAMEAU, params: vec![SqlValue::Integer(id)] },
        Prepared { sql: DELETE_HAMEAU, params: vec![SqlValue::Integer(id)] },
    ];
    assert(statements[0]@.params =~= detach_hameau(id).params);
    assert(statements[1]@.params =~= delete_hameau_statement(id).params);
    assert(statements.deep_view() =~= delete_hameau_statements(id));
    let inner = write_in_order(db, &statements);
    let ghost inside = *db;
    let deleted = finish(db, inner);
    proof {
        lemma_in_transaction(start, begun, inside, *db, outcome_view(inner), outcome_view(deleted), body);
    }
    deleted
}

/// A deletion that succeeded asked two things of the store, in one
/// transaction: that every child that names the record let go of the name,
/// and then that the record be removed.
pub proof fn lemma_delete_hameau_detaches(id: i64, steps: Seq<Exchange>)
    requires
        transacted(
            steps,
            Ok::<(), Failure>(()),
            |inner_steps: Seq<Exchange>, inner: Result<(), Failure>|
                wrote_in_order(delete_hameau_statements(id), inner_steps, inner),
        ),
    ensures
        steps.len() == 4,
        steps[1].statement == detach_hameau(id),
        steps[1].statement.sql == DETACH_HAMEAU@,
        done(steps[1].reply) is Ok,
        steps[2].statement == delete_hameau_statement(id),
        done(steps[2].reply) is Ok,
{
    let body = |inner_steps: Seq<Exchange>, inner: Result<(), Failure>|
        wrote_in_order(delete_hameau_statements(id), inner_steps, inner);
    lemma_committed(steps, (), body);
    let inside = steps.subrange(1, steps.len() - 1);
    assert(inside.len() == 2);
    assert(inside[0] == steps[1]);
    assert(inside[1] == steps[2]);
}

/// All records, by name.
pub fn get_all_hameaux(db: &mut Database) -> (found: Result<Vec<Hameau>, DbError>)
    ensures
        answered(
            *old(db),
            *final(db),
            select_all_hameau(),
            found,
            all_of_reply::<Hameau>(final(db).last_reply()),
        ),
{
    let params: Vec<SqlValue> = Vec::new();
    assert(params.deep_view() =~= select_all_hameau().params);
    fetch_all::<Hameau>(db, SELECT_ALL_HAMEAU, &params)
}

} // verus!
