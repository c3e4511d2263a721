//! What the host asks about users.

use vstd::prelude::*;
use crate::commands::{told_in_transaction, told_of};
use crate::error::{Failure, failure_text, report};
use crate::models::{User, UserView};
use crate::record::{all_of_reply, one_of_reply, optional_of_reply};
use crate::store::{Database, Exchange, done, done_on_existing, inserted_id};
use crate::transaction::wrote_in_order;
use crate::user_service::{
    DEFAULT_ACCOUNT_TYPE, DISCONNECTED, create_user, delete_user, delete_user_statement,
    get_all_users, get_user_by_id, get_user_by_username, insert_user, login_user, logout_statements,
    logout_user, logs_in, select_all_users, select_user_by_id, select_user_by_username, update_user,
    update_user_statement,
};

verus! {

/// The user that a registration stores: of the account type `user` unless
/// another is named, disconnected, without identifier or dates.
pub open spec fn registered(
    username: Seq<char>,
    password_hash: Seq<char>,
    account_type: Option<Seq<char>>,
) -> UserView {
    UserView {
        id: None,
        username,
        password_hash,
        account_type: match account_type {
            Some(named) => named,
            None => DEFAULT_ACCOUNT_TYPE@,
        },
        status: DISCONNECTED@,
        created_at: None,
        updated_at: None,
    }
}

/// Registers a user and gives its identifier.
pub fn user_register(
    db: &mut Database,
    username: String,
    password_hash: String,
    account_type: Option<String>,
) -> (told: Result<i64, String>)
    ensures
        told_of(
            *old(db),
            *final(db),
            insert_user(registered(username@, password_hash@, account_type.deep_view())),
            told,
            inserted_id(final(db).last_reply()),
        ),
{
    let user = User {
        id: None,
        username,
        password_hash,
        account_type: match account_type {
            Some(named) => named,
            None => DEFAULT_ACCOUNT_TYPE.to_owned(),
        },
        status: DISCONNECTED.to_owned(),
        created_at: None,
        updated_at: None,
    };
    report(create_user(db, &user))
}

/// Logs a user in and gives the user as it then is.
pub fn user_login(db: &mut Database, username: String, ip_address: String) -> (told: Result<User, String>)
    ensures
        told_in_transaction(
            *old(db),
            *final(db),
            told,
            |steps: Seq<Exchange>, inner: Result<UserView, Failure>| logs_in(username@, ip_address@, steps, inner),
        ),
{
    report(login_user(db, username.as_str(), ip_address.as_str()))
}

/// Logs a user out.
pub fn user_logout(db: &mut Database, user_id: i64) -> (told: Result<(), String>)
    ensures
        told_in_transaction(
            *old(db),
            *final(db),
            told,
            |steps: Seq<Exchange>, inner: Result<(), Failure>| wrote_in_order(logout_statements(user_id), steps, inner),
        ),
{
    report(logout_user(db, user_id))
}

/// The user with this identifier.
pub fn user_get_by_id(db: &mut Database, user_id: i64) -> (told: Result<User, String>)
    ensures
        told_of(
            *old(db),
            *final(db),
            select_user_by_id(user_id),
            told,
            one_of_reply::<User>(final(db).last_reply()),
        ),
{
    report(get_user_by_id(db, user_id))
}

/// The user with this name, if there is one.
pub fn user_get_by_username(db: &mut Database, username: String) -> (told: Result<Option<User>, String>)
    ensures
        told_of(
            *old(db),
            *final(db),
            select_user_by_username(username@),
            told,
            optional_of_reply::<User>(final(db).last_reply()),
        ),
{
    report(get_user_by_username(db, username.as_str()))
}

/// Rewrites a stored user.
pub fn user_update(db: &mut Database, user: User) -> (told: Result<(), String>)
    ensures
        user.id is None ==> *final(db) == *old(db) && told is Err && told->Err_0@ == failure_text(
            Failure::MissingId,
        ),
        user.id is Some ==> told_of(
            *old(db),
            *final(db),
            update_user_statement(user@),
            told,
            done_on_existing(final(db).last_reply()),
        ),
{
    report(update_user(db, &user))
}

/// Removes a user.
pub fn user_delete(db: &mut Database, user_id: i64) -> (told: Result<(), String>)
    ensures
        told_of(
            *old(db),
            *final(db),
            delete_user_statement(user_id),
            told,
            done(final(db).last_reply()),
        ),
{
    report(delete_user(db, user_id))
}

/// All users, by name.
pub fn user_get_all(db: &mut Database) -> (told: Result<Vec<User>, String>)
    ensures
        told_of(
            *old(db),
            *final(db),
            select_all_users(),
            told,
            all_of_reply::<User>(final(db).last_reply()),
        ),
{
    report(get_all_users(db))
}

} // verus!
