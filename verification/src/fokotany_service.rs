//! Administrative areas.

use vstd::prelude::*;
use crate::error::{DbError, Failure, outcome_view};
use crate::models::{Fokotany, FokotanyView};
use crate::record::{
    all_of_reply, answered, change_existing, fetch_all, fetch_one, fetch_optional, insert, one_of_reply,
    optional_of_reply,
};
use crate::store::{Database, Exchange, Statement, done, done_on_existing, inserted_id};
use crate::transaction::{
    Prepared, begin, finish, in_transaction, lemma_committed, lemma_in_transaction,
    lemma_not_begun, transacted, write_in_order, wrote_in_order,
};
use crate::value::{SqlValue, SqlDatum, integer_or_null, text_or_null};

verus! {

pub const INSERT_FOKOTANY: &'static str = "INSERT INTO fokotany (nom, px, py) VALUES (?1, ?2, ?3)";

pub const SELECT_FOKOTANY_BY_ID: &'static str =
    "SELECT id, nom, px, py, created_at, updated_at FROM fokotany WHERE id = ?1";

pub const SELECT_FOKOTANY_BY_NAME: &'static str =
    "SELECT id, nom, px, py, created_at, updated_at FROM fokotany WHERE nom = ?1";

pub const SELECT_ALL_FOKOTANY: &'static str =
    "SELECT id, nom, px, py, created_at, updated_at FROM fokotany ORDER BY nom";

pub const UPDATE_FOKOTANY: &'static str =
    "UPDATE fokotany SET nom = ?1, px = ?2, py = ?3, updated_at = CURRENT_TIMESTAMP WHERE id = ?4";

/// Clears the name of an area in every child that refers to it.
pub const DETACH_FOKOTANY: &'static str =
    "UPDATE enfants SET fokotany = NULL WHERE fokotany = (SELECT nom FROM fokotany WHERE id = ?1)";

pub const DELETE_FOKOTANY: &'static str = "DELETE FROM fokotany WHERE id = ?1";

/// The values of an area in the order of the columns that are written. A
/// coordinate is bound as its decimal numeral.
pub open spec fn fokotany_values(fokotany: FokotanyView) -> Seq<SqlDatum> {
    seq![SqlDatum::Text(fokotany.nom), text_or_null(fokotany.px), text_or_null(fokotany.py)]
}

pub open spec fn insert_fokotany(fokotany: FokotanyView) -> Statement {
    Statement { sql: INSERT_FOKOTANY@, params: fokotany_values(fokotany) }
}

pub open spec fn select_fokotany_by_id(id: i64) -> Statement {
    Statement { sql: SELECT_FOKOTANY_BY_ID@, params: seq![SqlDatum::Integer(id)] }
}

pub open spec fn select_fokotany_by_name(name: Seq<char>) -> Statement {
    Statement { sql: SELECT_FOKOTANY_BY_NAME@, params: seq![SqlDatum::Text(name)] }
}

pub open spec fn select_all_fokotany() -> Statement {
    Statement { sql: SELECT_ALL_FOKOTANY@, params: Seq::empty() }
}

pub open spec fn update_fokotany_statement(fokotany: FokotanyView) -> Statement {
    Statement { sql: UPDATE_FOKOTANY@, params: fokotany_values(fokotany).push(integer_or_null(fokotany.id)) }
}

pub open spec fn detach_fokotany(id: i64) -> Statement {
    Statement { sql: DETACH_FOKOTANY@, params: seq![SqlDatum::Integer(id)] }
}

pub open spec fn delete_fokotany_statement(id: i64) -> Statement {
    Statement { sql: DELETE_FOKOTANY@, params: seq![SqlDatum::Integer(id)] }
}

/// What deleting an area asks of the store: first that the children let go
/// of its name, then that it be removed.
pub open spec fn delete_fokotany_statements(id: i64) -> Seq<Statement> {
    seq![detach_fokotany(id), delete_fokotany_statement(id)]
}

fn fokotany_params(fokotany: &Fokotany) -> (params: Vec<SqlValue>)
    ensures
        params.deep_view() == fokotany_values(fokotany@),
{
    let params = vec![
        SqlValue::text(fokotany.nom.as_str()),
        SqlValue::optional_text(&fokotany.px),
        SqlValue::optional_text(&fokotany.py),
    ];
    assert(params.deep_view() =~= fokotany_values(fokotany@));
    params
}

/// Stores a new record and gives its identifier.
pub fn create_fokotany(db: &mut Database, fokotany: &Fokotany) -> (id: Result<i64, DbError>)
    ensures
        answered(*old(db), *final(db), insert_fokotany(fokotany@), id, inserted_id(final(db).last_reply())),
{
    let params = fokotany_params(fokotany);
    insert(db, INSERT_FOKOTANY, &params)
}

/// The record with this identifier; `NotFound` where there is none.
pub fn get_fokotany_by_id(db: &mut Database, id: i64) -> (found: Result<Fokotany, DbError>)
    ensures
        answered(
            *old(db),
            *final(db),
            select_fokotany_by_id(id),
            found,
            one_of_reply::<Fokotany>(final(db).last_reply()),
        ),
{
    let params = vec![SqlValue::Integer(id)];
    assert(params.deep_view() =~= select_fokotany_by_id(id).params);
    fetch_one::<Fokotany>(db, SELECT_FOKOTANY_BY_ID, &params)
}

/// The record with this name, if there is one.
pub fn get_fokotany_by_name(db: &mut Database, name: &str) -> (found: Result<Option<Fokotany>, DbError>)
    ensures
        answered(
            *old(db),
            *final(db),
            select_fokotany_by_name(name@),
            found,
            optional_of_reply::<Fokotany>(final(db).last_reply()),
        ),
{
    let params = vec![SqlValue::text(name)];
    assert(params.deep_view() =~= select_fokotany_by_name(name@).params);
    fetch_optional::<Fokotany>(db, SELECT_FOKOTANY_BY_NAME, &params)
}

/// Rewrites a stored record. Fails with `MissingId`, asking nothing of the
/// store, where the record has no identifier, and with `NotFound` where the
/// store has no record with it.
pub fn update_fokotany(db: &mut Database, fokotany: &Fokotany) -> (updated: Result<(), DbError>)
    ensures
        fokotany.id is None ==> *final(db) == *old(db) && updated matches Err(DbError::MissingId),
        fokotany.id is Some ==> answered(
            *old(db),
            *final(db),
            update_fokotany_statement(fokotany@),
            updated,
            done_on_existing(final(db).last_reply()),
        ),
{
    if fokotany.id.is_none() {
        return Err(DbError::MissingId);
    }
    let mut params = fokotany_params(fokotany);
    let ghost values = params.deep_view();
    params.push(SqlValue::optional_integer(fokotany.id));
    assert(params.deep_view() =~= values.push(integer_or_null(fokotany.id)));
    change_existing(db, UPDATE_FOKOTANY, &params)
}

/// Removes an area, in one transaction with the children that refer to it
/// by name: they keep no reference to it.
pub fn delete_fokotany(db: &mut Database, id: i64) -> (deleted: Result<(), DbError>)
    ensures
        in_transaction(
            *old(db),
            *final(db),
            outcome_view(deleted),
            |steps: Seq<Exchange>, inner: Result<(), Failure>|
                wrote_in_order(delete_fokotany_statements(id), steps, inner),
        ),
{
    let ghost start = *db;
    let ghost body = |steps: Seq<Exchange>, inner: Result<(), Failure>|
        wrote_in_order(delete_fokotany_statements(id), steps, inner);
    match begin(db) {
        Ok(()) => {},
        Err(failure) => {
            proof {
                lemma_not_begun::<()>(start, *db, failure@, body);
            }
            return Err(failure);
        },
    }
    let ghost begun = *db;
    let statements = vec![
        Prepared { sql: DETACH_FOKOTANY, params: vec![SqlValue::Integer(id)] },
        Prepared { sql: DELETE_FOKOTANY, params: vec![SqlValue::Integer(id)] },
    ];
    assert(statements[0]@.params =~= detach_fokotany(id).params);
    assert(statements[1]@.params =~= delete_fokotany_statement(id).params);
    assert(statements.deep_view() =~= delete_fokotany_statements(id));
    let inner = write_in_order(db, &statements);
    let ghost inside = *db;
    let deleted = finish(db, inner);
    proof {
        lemma_in_transaction(start, begun, inside, *db, outcome_view(inner), outcome_view(deleted), body);
    }
    deleted
}

/// A deletion that succeeded asked two things of the store, in one
/// transaction: that every child that names the record let go of the name,
/// and then that the record be removed.
pub proof fn lemma_delete_fokotany_detaches(id: i64, steps: Seq<Exchange>)
    requires
        transacted(
            steps,
            Ok::<(), Failure>(()),
            |inner_steps: Seq<Exchange>, inner: Result<(), Failure>|
                wrote_in_order(delete_fokotany_statements(id), inner_steps, inner),
        ),
    ensures
        steps.len() == 4,
        steps[1].statement == detach_fokotany(id),
        steps[1].statement.sql == DETACH_FOKOTANY@,
        done(steps[1].reply) is Ok,
        steps[2].statement == delete_fokotany_statement(id),
        done(steps[2].reply) is Ok,
{
    let body = |inner_steps: Seq<Exchange>, inner: Result<(), Failure>|
        wrote_in_order(delete_fokotany_statements(id), inner_steps, inner);
    lemma_committed(steps, (), body);
    let inside = steps.subrange(1, steps.len() - 1);
    assert(inside.len() == 2);
    assert(inside[0] == steps[1]);
    assert(inside[1] == steps[2]);
}

/// All records, by name.
pub fn get_all_fokotany(db: &mut Database) -> (found: Result<Vec<Fokotany>, DbError>)
    ensures
        answered(
            *old(db),
            *final(db),
            select_all_fokotany(),
            found,
            all_of_reply::<Fokotany>(final(db).last_reply()),
        ),
{
    let params: Vec<SqlValue> = Vec::new();
    assert(params.deep_view() =~= select_all_fokotany().params);
    fetch_all::<Fokotany>(db, SELECT_ALL_FOKOTANY, &params)
}

} // verus!
