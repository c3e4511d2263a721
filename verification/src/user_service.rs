//! Users and their session records.

use vstd::prelude::*;
use crate::error::{DbError, Failure, outcome_view};
use crate::models::{User, UserView};
use crate::record::{
    all_of_reply, answered, change, change_existing, fetch_all, fetch_one, fetch_optional, insert,
    one_of_reply, optional_of_reply,
};
use crate::store::{Database, Exchange, Statement, done, done_on_existing, inserted_id};
use crate::transaction::{
    Prepared, begin, continues, finish, in_transaction, lemma_asked, lemma_in_transaction,
    lemma_not_begun, lemma_step, trace, write_in_order, wrote_in_order,
};
use crate::value::{SqlValue, SqlDatum, integer_or_null};

verus! {

pub const INSERT_USER: &'static str =
    "INSERT INTO users (username, password_hash, account_type, status) VALUES (?1, ?2, ?3, ?4)";

pub const SELECT_USER_BY_ID: &'static str =
    "SELECT id, username, password_hash, account_type, status, created_at, updated_at FROM users WHERE id = ?1";

pub const SELECT_USER_BY_USERNAME: &'static str =
    "SELECT id, username, password_hash, account_type, status, created_at, updated_at FROM users WHERE username = ?1";

pub const SELECT_ALL_USERS: &'static str =
    "SELECT id, username, password_hash, account_type, status, created_at, updated_at FROM users ORDER BY username";

pub const UPDATE_USER_STATUS: &'static str =
    "UPDATE users SET status = ?1, updated_at = CURRENT_TIMESTAMP WHERE id = ?2";

pub const UPDATE_USER: &'static str =
    "UPDATE users SET username = ?1, password_hash = ?2, account_type = ?3, status = ?4, updated_at = CURRENT_TIMESTAMP WHERE id = ?5";

pub const DELETE_USER: &'static str = "DELETE FROM users WHERE id = ?1";

pub const UPSERT_LOGIN: &'static str =
    "INSERT OR REPLACE INTO logins (user_id, username, ip_address, status, last_login) VALUES (?1, ?2, ?3, ?4, CURRENT_TIMESTAMP)";

pub const UPDATE_LOGIN_STATUS: &'static str =
    "UPDATE logins SET status = ?1, last_login = CURRENT_TIMESTAMP WHERE user_id = ?2";

/// The status of a user who is logged in.
pub const CONNECTED: &'static str = "connected";

/// The status of a user who is not.
pub const DISCONNECTED: &'static str = "disconnected";

/// The account type of a user who registers without naming one.
pub const DEFAULT_ACCOUNT_TYPE: &'static str = "user";

pub open spec fn insert_user(user: UserView) -> Statement {
    Statement {
        sql: INSERT_USER@,
        params: seq![
            SqlDatum::Text(user.username),
            SqlDatum::Text(user.password_hash),
            SqlDatum::Text(user.account_type),
            SqlDatum::Text(user.status),
        ],
    }
}

pub open spec fn select_user_by_id(user_id: i64) -> Statement {
    Statement { sql: SELECT_USER_BY_ID@, params: seq![SqlDatum::Integer(user_id)] }
}

pub open spec fn select_user_by_username(username: Seq<char>) -> Statement {
    Statement { sql: SELECT_USER_BY_USERNAME@, params: seq![SqlDatum::Text(username)] }
}

pub open spec fn select_all_users() -> Statement {
    Statement { sql: SELECT_ALL_USERS@, params: Seq::empty() }
}

pub open spec fn update_user_status_statement(user_id: i64, status: Seq<char>) -> Statement {
    Statement { sql: UPDATE_USER_STATUS@, params: seq![SqlDatum::Text(status), SqlDatum::Integer(user_id)] }
}

pub open spec fn update_user_statement(user: UserView) -> Statement {
    Statement {
        sql: UPDATE_USER@,
        params: seq![
            SqlDatum::Text(user.username),
            SqlDatum::Text(user.password_hash),
            SqlDatum::Text(user.account_type),
            SqlDatum::Text(user.status),
            integer_or_null(user.id),
        ],
    }
}

pub open spec fn delete_user_statement(user_id: i64) -> Statement {
    Statement { sql: DELETE_USER@, params: seq![SqlDatum::Integer(user_id)] }
}

/// The statement that writes the session record of a user anew, with the
/// status `connected`.
pub open spec fn upsert_login(user_id: i64, username: Seq<char>, ip_address: Seq<char>) -> Statement {
    Statement {
        sql: UPSERT_LOGIN@,
        params: seq![
            SqlDatum::Integer(user_id),
            SqlDatum::Text(username),
            SqlDatum::Text(ip_address),
            SqlDatum::Text(CONNECTED@),
        ],
    }
}

pub open spec fn update_login_status_statement(user_id: i64, status: Seq<char>) -> Statement {
    Statement { sql: UPDATE_LOGIN_STATUS@, params: seq![SqlDatum::Text(status), SqlDatum::Integer(user_id)] }
}

/// Stores a new user and gives its identifier.
pub fn create_user(db: &mut Database, user: &User) -> (id: Result<i64, DbError>)
    ensures
        answered(*old(db), *final(db), insert_user(user@), id, inserted_id(final(db).last_reply())),
{
    let params = vec![
        SqlValue::text(user.username.as_str()),
        SqlValue::text(user.password_hash.as_str()),
        SqlValue::text(user.account_type.as_str()),
        SqlValue::text(user.status.as_str()),
    ];
    assert(params.deep_view() =~= insert_user(user@).params);
    insert(db, INSERT_USER, &params)
}

/// The user with this identifier; `NotFound` where there is none.
pub fn get_user_by_id(db: &mut Database, user_id: i64) -> (found: Result<User, DbError>)
    ensures
        answered(
            *old(db),
            *final(db),
            select_user_by_id(user_id),
            found,
            one_of_reply::<User>(final(db).last_reply()),
        ),
{
    let params = vec![SqlValue::Integer(user_id)];
    assert(params.deep_view() =~= select_user_by_id(user_id).params);
    fetch_one::<User>(db, SELECT_USER_BY_ID, &params)
}

/// The user with this name, if there is one.
pub fn get_user_by_username(db: &mut Database, username: &str) -> (found: Result<Option<User>, DbError>)
    ensures
        answered(
            *old(db),
            *final(db),
            select_user_by_username(username@),
            found,
            optional_of_reply::<User>(final(db).last_reply()),
        ),
{
    let params = vec![SqlValue::text(username)];
    assert(params.deep_view() =~= select_user_by_username(username@).params);
    fetch_optional::<User>(db, SELECT_USER_BY_USERNAME, &params)
}

/// Sets the status of a user.
pub fn update_user_status(db: &mut Database, user_id: i64, status: &str) -> (updated: Result<(), DbError>)
    ensures
        answered(
            *old(db),
            *final(db),
            update_user_status_statement(user_id, status@),
            updated,
            done(final(db).last_reply()),
        ),
{
    let params = vec![SqlValue::text(status), SqlValue::Integer(user_id)];
    assert(params.deep_view() =~= update_user_status_statement(user_id, status@).params);
    change(db, UPDATE_USER_STATUS, &params)
}

/// Rewrites a stored user. Fails with `MissingId`, asking nothing of the
/// store, where the record has no identifier, and with `NotFound` where the
/// store has no user with it.
pub fn update_user(db: &mut Database, user: &User) -> (updated: Result<(), DbError>)
    ensures
        user.id is None ==> *final(db) == *old(db) && updated matches Err(DbError::MissingId),
        user.id is Some ==> answered(
            *old(db),
            *final(db),
            update_user_statement(user@),
            updated,
            done_on_existing(final(db).last_reply()),
        ),
{
    if user.id.is_none() {
        return Err(DbError::MissingId);
    }
    let params = vec![
        SqlValue::text(user.username.as_str()),
        SqlValue::text(user.password_hash.as_str()),
        SqlValue::text(user.account_type.as_str()),
        SqlValue::text(user.status.as_str()),
        SqlValue::optional_integer(user.id),
    ];
    assert(params.deep_view() =~= update_user_statement(user@).params);
    change_existing(db, UPDATE_USER, &params)
}

/// Removes a user.
pub fn delete_user(db: &mut Database, user_id: i64) -> (deleted: Result<(), DbError>)
    ensures
        answered(*old(db), *final(db), delete_user_statement(user_id), deleted, done(final(db).last_reply())),
{
    let params = vec![SqlValue::Integer(user_id)];
    assert(params.deep_view() =~= delete_user_statement(user_id).params);
    change(db, DELETE_USER, &params)
}

/// All users, by name.
pub fn get_all_users(db: &mut Database) -> (found: Result<Vec<User>, DbError>)
    ensures
        answered(*old(db), *final(db), select_all_users(), found, all_of_reply::<User>(final(db).last_reply())),
{
    let params: Vec<SqlValue> = Vec::new();
    assert(params.deep_view() =~= select_all_users().params);
    fetch_all::<User>(db, SELECT_ALL_USERS, &params)
}

/// Writes the session record of a user, with the status `connected`, in place
/// of the one it had.
pub fn create_login_record(db: &mut Database, user_id: i64, username: &str, ip_address: &str) -> (written: Result<
    (),
    DbError,
>)
    ensures
        answered(
            *old(db),
            *final(db),
            upsert_login(user_id, username@, ip_address@),
            written,
            done(final(db).last_reply()),
        ),
{
    let params = vec![
        SqlValue::Integer(user_id),
        SqlValue::text(username),
        SqlValue::text(ip_address),
        SqlValue::text(CONNECTED),
    ];
    assert(params.deep_view() =~= upsert_login(user_id, username@, ip_address@).params);
    change(db, UPSERT_LOGIN, &params)
}

/// Sets the status of the session record of a user.
pub fn update_login_status(db: &mut Database, user_id: i64, status: &str) -> (updated: Result<(), DbError>)
    ensures
        answered(
            *old(db),
            *final(db),
            update_login_status_statement(user_id, status@),
            updated,
            done(final(db).last_reply()),
        ),
{
    let params = vec![SqlValue::text(status), SqlValue::Integer(user_id)];
    assert(params.deep_view() =~= update_login_status_statement(user_id, status@).params);
    change(db, UPDATE_LOGIN_STATUS, &params)
}

/// What logging in asks of the store: the user with this name; then, where
/// there is one, that its status be `connected`, that its session record be
/// written anew, and the user as it now is. Without such a user the login
/// fails with `UnknownUser`.
pub open spec fn logs_in(
    username: Seq<char>,
    ip_address: Seq<char>,
    steps: Seq<Exchange>,
    result: Result<UserView, Failure>,
) -> bool {
    &&& steps.len() >= 1
    &&& steps[0].statement == select_user_by_username(username)
    &&& match optional_of_reply::<User>(steps[0].reply) {
        Err(failure) => steps.len() == 1 && result == Err::<UserView, Failure>(failure),
        Ok(None) => steps.len() == 1 && result == Err::<UserView, Failure>(Failure::UnknownUser),
        Ok(Some(user)) => {
            &&& steps.len() >= 2
            &&& steps[1].statement == update_user_status_statement(user.id->0, CONNECTED@)
            &&& match done(steps[1].reply) {
                Err(failure) => steps.len() == 2 && result == Err::<UserView, Failure>(failure),
                Ok(_) => {
                    &&& steps.len() >= 3
                    &&& steps[2].statement == upsert_login(user.id->0, username, ip_address)
                    &&& match done(steps[2].reply) {
                        Err(failure) => steps.len() == 3 && result == Err::<UserView, Failure>(failure),
                        Ok(_) => {
                            &&& steps.len() == 4
                            &&& steps[3].statement == select_user_by_id(user.id->0)
                            &&& result == one_of_reply::<User>(steps[3].reply)
                        },
                    }
                },
            }
        },
    }
}

/// What logging out asks of the store: that the status of the user, then
/// that of its session record, be `disconnected`.
pub open spec fn logout_statements(user_id: i64) -> Seq<Statement> {
    seq![
        update_user_status_statement(user_id, DISCONNECTED@),
        update_login_status_statement(user_id, DISCONNECTED@),
    ]
}

fn login_steps(db: &mut Database, username: &str, ip_address: &str) -> (user: Result<User, DbError>)
    requires
        old(db).is_open(),
    ensures
        continues(*old(db), *final(db)),
        logs_in(username@, ip_address@, trace(*old(db), *final(db)), outcome_view(user)),
{
    let ghost start = *db;
    let found = get_user_by_username(db, username);
    proof {
        lemma_asked(start, *db, select_user_by_username(username@));
    }
    let user = match found {
        Ok(Some(user)) => user,
        Ok(None) => {
            return Err(DbError::UnknownUser);
        },
        Err(failure) => {
            return Err(failure);
        },
    };
    let user_id = match user.id {
        Some(id) => id,
        None => {
            // A user read from a row has the row's identifier.
            assert(false);
            return Err(DbError::MissingId);
        },
    };
    let ghost looked = *db;
    let marked = update_user_status(db, user_id, CONNECTED);
    proof {
        lemma_step(start, looked, *db, update_user_status_statement(user_id, CONNECTED@));
    }
    match marked {
        Ok(()) => {},
        Err(failure) => {
            return Err(failure);
        },
    }
    let ghost marked_at = *db;
    let recorded = create_login_record(db, user_id, username, ip_address);
    proof {
        lemma_step(start, marked_at, *db, upsert_login(user_id, username@, ip_address@));
    }
    match recorded {
        Ok(()) => {},
        Err(failure) => {
            return Err(failure);
        },
    }
    let ghost recorded_at = *db;
    let refreshed = get_user_by_id(db, user_id);
    proof {
        lemma_step(start, recorded_at, *db, select_user_by_id(user_id));
    }
    refreshed
}

/// Logs a user in, in one transaction: marks the user as connected, writes
/// its session record anew and gives the user as it now is. Fails with
/// `UnknownUser` where nobody has this name.
pub fn login_user(db: &mut Database, username: &str, ip_address: &str) -> (user: Result<User, DbError>)
    ensures
        in_transaction(
            *old(db),
            *final(db),
            outcome_view(user),
            |steps: Seq<Exchange>, inner: Result<UserView, Failure>|
                logs_in(username@, ip_address@, steps, inner),
        ),
{
    let ghost start = *db;
    let ghost body = |steps: Seq<Exchange>, inner: Result<UserView, Failure>|
        logs_in(username@, ip_address@, steps, inner);
    match begin(db) {
        Ok(()) => {},
        Err(failure) => {
            proof {
                lemma_not_begun::<UserView>(start, *db, failure@, body);
            }
            return Err(failure);
        },
    }
    let ghost begun = *db;
    let inner = login_steps(db, username, ip_address);
    let ghost inside = *db;
    let user = finish(db, inner);
    proof {
        lemma_in_transaction(start, begun, inside, *db, outcome_view(inner), outcome_view(user), body);
    }
    user
}

/// Logs a user out, in one transaction: marks the user, then its session
/// record, as disconnected.
pub fn logout_user(db: &mut Database, user_id: i64) -> (left: Result<(), DbError>)
    ensures
        in_transaction(
            *old(db),
            *final(db),
            outcome_view(left),
            |steps: Seq<Exchange>, inner: Result<(), Failure>|
                wrote_in_order(logout_statements(user_id), steps, inner),
        ),
{
    let ghost start = *db;
    let ghost body = |steps: Seq<Exchange>, inner: Result<(), Failure>|
        wrote_in_order(logout_statements(user_id), steps, inner);
    match begin(db) {
        Ok(()) => {},
        Err(failure) => {
            proof {
                lemma_not_begun::<()>(start, *db, failure@, body);
            }
            return Err(failure);
        },
    }
    let ghost begun = *db;
    let statements = vec![
        Prepared { sql: UPDATE_USER_STATUS, params: vec![SqlValue::text(DISCONNECTED), SqlValue::Integer(user_id)] },
        Prepared { sql: UPDATE_LOGIN_STATUS, params: vec![SqlValue::text(DISCONNECTED), SqlValue::Integer(user_id)] },
    ];
    assert(statements[0]@.params =~= update_user_status_statement(user_id, DISCONNECTED@).params);
    assert(statements[1]@.params =~= update_login_status_statement(user_id, DISCONNECTED@).params);
    assert(statements.deep_view() =~= logout_statements(user_id));
    let inner = write_in_order(db, &statements);
    let ghost inside = *db;
    let left = finish(db, inner);
    proof {
        lemma_in_transaction(start, begun, inside, *db, outcome_view(inner), outcome_view(left), body);
    }
    left
}

} // verus!
