//! Notifications: messages for one user, or for all where no user is named.
//!
//! A notification whose expiry lies in the past is left out of every listing
//! and count: each query asks the store for that.

use vstd::prelude::*;
use vstd::string::StringExecFns;
use crate::columns::{ColumnKind, as_integer, integer_of};
use crate::dates::{instant_or_null, optional_instant_value};
use crate::error::{DbError, Failure};
use crate::models::{Notification, NotificationView};
use crate::record::{
    Record, all_of_reply, answered, change, change_counting, fetch_all, fetch_one, insert,
    one_of_reply,
};
use crate::store::{Database, Reply, Statement, changed_rows, done, inserted_id};
use crate::value::{SqlValue, SqlDatum, flag_or_null, integer_or_null, text_or_null};

verus! {

pub const INSERT_NOTIFICATION: &'static str =
    "INSERT INTO notifications (user_id, title, message, type, category, is_read, action_link, entity_type, entity_id, expires_at) VALUES (?1, ?2, ?3, ?4, ?5, ?6, ?7, ?8, ?9, ?10)";

pub const SELECT_NOTIFICATION_BY_ID: &'static str =
    "SELECT id, user_id, title, message, type, category, is_read, action_link, entity_type, entity_id, created_at, expires_at FROM notifications WHERE id = ?1";

pub const MARK_NOTIFICATION_READ: &'static str = "UPDATE notifications SET is_read = 1 WHERE id = ?1";

pub const DELETE_NOTIFICATION: &'static str = "DELETE FROM notifications WHERE id = ?1";

pub const PURGE_EXPIRED: &'static str =
    "DELETE FROM notifications WHERE expires_at IS NOT NULL AND expires_at < CURRENT_TIMESTAMP";

/// Start of a listing; the conditions follow.
pub const LIST_NOTIFICATIONS: &'static str =
    "SELECT id, user_id, title, message, type, category, is_read, action_link, entity_type, entity_id, created_at, expires_at FROM notifications WHERE ";

/// Start of a count; the conditions follow.
pub const COUNT_NOTIFICATIONS: &'static str = "SELECT COUNT(*) FROM notifications WHERE ";

/// Start of a marking as read; the condition follows.
pub const MARK_READ: &'static str = "UPDATE notifications SET is_read = 1 WHERE ";

/// The notifications of the user bound to `?1`.
pub const OF_USER: &'static str = "user_id = ?1";

/// The notifications for all.
pub const OF_NOBODY: &'static str = "user_id IS NULL";

pub const UNREAD: &'static str = " AND is_read = 0";

/// Leaves out what has expired.
pub const NOT_EXPIRED: &'static str = " AND (expires_at IS NULL OR expires_at > CURRENT_TIMESTAMP)";

/// Newest first, one page; the user is bound before the page.
pub const PAGE_AFTER_USER: &'static str = " ORDER BY created_at DESC LIMIT ?2 OFFSET ?3";

/// Newest first, one page.
pub const PAGE: &'static str = " ORDER BY created_at DESC LIMIT ?1 OFFSET ?2";

pub open spec fn insert_notification(notification: NotificationView) -> Statement {
    Statement {
        sql: INSERT_NOTIFICATION@,
        params: seq![
            integer_or_null(notification.user_id),
            SqlDatum::Text(notification.title),
            SqlDatum::Text(notification.message),
            SqlDatum::Text(notification.notification_type),
            SqlDatum::Text(notification.category),
            flag_or_null(notification.is_read),
            text_or_null(notification.action_link),
            text_or_null(notification.entity_type),
            integer_or_null(notification.entity_id),
            instant_or_null(notification.expires_at),
        ],
    }
}

pub open spec fn select_notification_by_id(notification_id: i64) -> Statement {
    Statement { sql: SELECT_NOTIFICATION_BY_ID@, params: seq![SqlDatum::Integer(notification_id)] }
}

pub open spec fn mark_notification_read(notification_id: i64) -> Statement {
    Statement { sql: MARK_NOTIFICATION_READ@, params: seq![SqlDatum::Integer(notification_id)] }
}

pub open spec fn delete_notification_statement(notification_id: i64) -> Statement {
    Statement { sql: DELETE_NOTIFICATION@, params: seq![SqlDatum::Integer(notification_id)] }
}

pub open spec fn purge_expired() -> Statement {
    Statement { sql: PURGE_EXPIRED@, params: Seq::empty() }
}

/// The condition that selects the notifications of a user, or those for all.
pub open spec fn scope_text(user_id: Option<i64>) -> Seq<char> {
    match user_id {
        Some(_) => OF_USER@,
        None => OF_NOBODY@,
    }
}

/// The values bound for the scope.
pub open spec fn scope_params(user_id: Option<i64>) -> Seq<SqlDatum> {
    match user_id {
        Some(id) => seq![SqlDatum::Integer(id)],
        None => Seq::empty(),
    }
}

pub open spec fn unread_text(include_read: bool) -> Seq<char> {
    if include_read {
        Seq::empty()
    } else {
        UNREAD@
    }
}

pub open spec fn page_text(user_id: Option<i64>) -> Seq<char> {
    match user_id {
        Some(_) => PAGE_AFTER_USER@,
        None => PAGE@,
    }
}

/// The listing of one page of the notifications of a user, or of those for
/// all: unread only unless `include_read`, never the expired, newest first.
pub open spec fn list_notifications(user_id: Option<i64>, limit: i64, offset: i64, include_read: bool) -> Statement {
    Statement {
        sql: LIST_NOTIFICATIONS@ + scope_text(user_id) + unread_text(include_read) + NOT_EXPIRED@ + page_text(
            user_id,
        ),
        params: scope_params(user_id) + seq![SqlDatum::Integer(limit), SqlDatum::Integer(offset)],
    }
}

/// The count of the unread notifications of a user, or of those for all,
/// without the expired.
pub open spec fn count_unread(user_id: Option<i64>) -> Statement {
    Statement {
        sql: COUNT_NOTIFICATIONS@ + scope_text(user_id) + UNREAD@ + NOT_EXPIRED@,
        params: scope_params(user_id),
    }
}

pub open spec fn mark_all_read(user_id: Option<i64>) -> Statement {
    Statement { sql: MARK_READ@ + scope_text(user_id), params: scope_params(user_id) }
}

/// A text holds `part` somewhere.
pub open spec fn holds_part(text: Seq<char>, part: Seq<char>) -> bool {
    exists|head: Seq<char>, tail: Seq<char>| text == head + part + tail
}

/// Every listing and every count of notifications asks the store to leave
/// out what has expired, whatever the user, the page and the read state.
pub proof fn lemma_expired_left_out(user_id: Option<i64>, limit: i64, offset: i64, include_read: bool)
    ensures
        holds_part(list_notifications(user_id, limit, offset, include_read).sql, NOT_EXPIRED@),
        holds_part(count_unread(user_id).sql, NOT_EXPIRED@),
{
    let head = LIST_NOTIFICATIONS@ + scope_text(user_id) + unread_text(include_read);
    assert(list_notifications(user_id, limit, offset, include_read).sql == head + NOT_EXPIRED@ + page_text(
        user_id,
    ));
    let counted = COUNT_NOTIFICATIONS@ + scope_text(user_id) + UNREAD@;
    assert(count_unread(user_id).sql =~= counted + NOT_EXPIRED@ + Seq::<char>::empty());
}

/// The one number that a count returns.
#[derive(Clone, Copy, Debug, PartialEq, Eq)]
pub struct Tally {
    pub count: i64,
}

impl View for Tally {
    type V = Tally;

    open spec fn view(&self) -> Tally {
        *self
    }
}

impl DeepView for Tally {
    type V = Tally;

    open spec fn deep_view(&self) -> Tally {
        *self
    }
}

impl Record for Tally {
    open spec fn kinds() -> Seq<ColumnKind> {
        seq![ColumnKind::Integer]
    }

    open spec fn of_fields(row: Seq<SqlDatum>) -> Tally {
        Tally { count: as_integer(row[0]) }
    }

    fn columns() -> (kinds: Vec<ColumnKind>) {
        let kinds = vec![ColumnKind::Integer];
        assert(kinds@ =~= Self::kinds());
        kinds
    }

    fn from_fields(row: &Vec<SqlValue>) -> (record: Tally) {
        Tally { count: integer_of(row, 0) }
    }
}

/// The number that a count returned.
pub open spec fn count_of_reply(reply: Reply) -> Result<i64, Failure> {
    match one_of_reply::<Tally>(reply) {
        Ok(tally) => Ok(tally.count),
        Err(failure) => Err(failure),
    }
}

fn scope_values(user_id: Option<i64>) -> (params: Vec<SqlValue>)
    ensures
        params.deep_view() == scope_params(user_id),
{
    let params = match user_id {
        Some(id) => vec![SqlValue::Integer(id)],
        None => Vec::new(),
    };
    assert(params.deep_view() =~= scope_params(user_id));
    params
}

fn scope_sql(user_id: Option<i64>) -> (text: &'static str)
    ensures
        text@ == scope_text(user_id),
{
    match user_id {
        Some(_) => OF_USER,
        None => OF_NOBODY,
    }
}

/// Stores a new notification and gives its identifier.
pub fn create_notification(db: &mut Database, notification: &Notification) -> (id: Result<i64, DbError>)
    ensures
        answered(
            *old(db),
            *final(db),
            insert_notification(notification@),
            id,
            inserted_id(final(db).last_reply()),
        ),
{
    let params = vec![
        SqlValue::optional_integer(notification.user_id),
        SqlValue::text(notification.title.as_str()),
        SqlValue::text(notification.message.as_str()),
        SqlValue::text(notification.notification_type.as_str()),
        SqlValue::text(notification.category.as_str()),
        SqlValue::optional_flag(notification.is_read),
        SqlValue::optional_text(&notification.action_link),
        SqlValue::optional_text(&notification.entity_type),
        SqlValue::optional_integer(notification.entity_id),
        optional_instant_value(&notification.expires_at),
    ];
    assert(params.deep_view() =~= insert_notification(notification@).params);
    insert(db, INSERT_NOTIFICATION, &params)
}

/// The notification with this identifier; `NotFound` where there is none.
pub fn get_notification_by_id(db: &mut Database, notification_id: i64) -> (found: Result<Notification, DbError>)
    ensures
        answered(
            *old(db),
            *final(db),
            select_notification_by_id(notification_id),
            found,
            one_of_reply::<Notification>(final(db).last_reply()),
        ),
{
    let params = vec![SqlValue::Integer(notification_id)];
    assert(params.deep_view() =~= select_notification_by_id(notification_id).params);
    fetch_one::<Notification>(db, SELECT_NOTIFICATION_BY_ID, &params)
}

/// Marks a notification as read.
pub fn mark_notification_as_read(db: &mut Database, notification_id: i64) -> (marked: Result<(), DbError>)
    ensures
        answered(
            *old(db),
            *final(db),
            mark_notification_read(notification_id),
            marked,
            done(final(db).last_reply()),
        ),
{
    let params = vec![SqlValue::Integer(notification_id)];
    assert(params.deep_view() =~= mark_notification_read(notification_id).params);
    change(db, MARK_NOTIFICATION_READ, &params)
}

/// Marks as read all notifications of a user, or all those for all.
pub fn mark_all_notifications_as_read(db: &mut Database, user_id: Option<i64>) -> (marked: Result<(), DbError>)
    ensures
        answered(*old(db), *final(db), mark_all_read(user_id), marked, done(final(db).last_reply())),
{
    let mut sql = String::from_str(MARK_READ);
    sql.append(scope_sql(user_id));
    let params = scope_values(user_id);
    change(db, sql.as_str(), &params)
}

/// Removes a notification.
pub fn delete_notification(db: &mut Database, notification_id: i64) -> (deleted: Result<(), DbError>)
    ensures
        answered(
            *old(db),
            *final(db),
            delete_notification_statement(notification_id),
            deleted,
            done(final(db).last_reply()),
        ),
{
    let params = vec![SqlValue::Integer(notification_id)];
    assert(params.deep_view() =~= delete_notification_statement(notification_id).params);
    change(db, DELETE_NOTIFICATION, &params)
}

/// The number of unread notifications of a user, or of those for all, that
/// have not expired.
pub fn get_unread_notifications_count(db: &mut Database, user_id: Option<i64>) -> (count: Result<i64, DbError>)
    ensures
        answered(*old(db), *final(db), count_unread(user_id), count, count_of_reply(final(db).last_reply())),
{
    let mut sql = String::from_str(COUNT_NOTIFICATIONS);
    sql.append(scope_sql(user_id));
    sql.append(UNREAD);
    sql.append(NOT_EXPIRED);
    let params = scope_values(user_id);
    match fetch_one::<Tally>(db, sql.as_str(), &params) {
        Ok(tally) => Ok(tally.count),
        Err(failure) => Err(failure),
    }
}

/// One page of the notifications of a user, or of those for all, that have
/// not expired: unread only unless `include_read`, newest first.
pub fn get_notifications_for_user(
    db: &mut Database,
    user_id: Option<i64>,
    limit: i64,
    offset: i64,
    include_read: bool,
) -> (found: Result<Vec<Notification>, DbError>)
    ensures
        answered(
            *old(db),
            *final(db),
            list_notifications(user_id, limit, offset, include_read),
            found,
            all_of_reply::<Notification>(final(db).last_reply()),
        ),
{
    let mut sql = String::from_str(LIST_NOTIFICATIONS);
    sql.append(scope_sql(user_id));
    if !include_read {
        sql.append(UNREAD);
    }
    sql.append(NOT_EXPIRED);
    match user_id {
        Some(_) => sql.append(PAGE_AFTER_USER),
        None => sql.append(PAGE),
    }
    assert(sql@ =~= list_notifications(user_id, limit, offset, include_read).sql);
    let mut params = scope_values(user_id);
    let ghost scoped = params.deep_view();
    params.push(SqlValue::Integer(limit));
    params.push(SqlValue::Integer(offset));
    assert(params.deep_view() =~= scoped + seq![SqlDatum::Integer(limit), SqlDatum::Integer(offset)]);
    fetch_all::<Notification>(db, sql.as_str(), &params)
}

/// Removes every notification that has expired, read or not, and gives the
/// number removed.
pub fn purge_expired_notifications(db: &mut Database) -> (purged: Result<usize, DbError>)
    ensures
        answered(*old(db), *final(db), purge_expired(), purged, changed_rows(final(db).last_reply())),
{
    let params: Vec<SqlValue> = Vec::new();
    assert(params.deep_view() =~= purge_expired().params);
    change_counting(db, PURGE_EXPIRED, &params)
}

} // verus!
