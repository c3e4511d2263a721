//! What the host asks about notifications.

use vstd::prelude::*;
use crate::commands::told_of;
use crate::error::report;
use crate::models::Notification;
use crate::notification_service::{
    count_of_reply, count_unread, create_notification, delete_notification,
    delete_notification_statement, get_notification_by_id, get_notifications_for_user,
    get_unread_notifications_count, insert_notification, list_notifications, mark_all_notifications_as_read,
    mark_all_read, mark_notification_as_read, mark_notification_read, purge_expired,
    purge_expired_notifications, select_notification_by_id,
};
use crate::record::{all_of_reply, one_of_reply};
use crate::store::{Database, changed_rows, done, inserted_id};

verus! {

/// Stores a new notification and gives its identifier.
pub fn notification_create(db: &mut Database, notification: Notification) -> (told: Result<i64, String>)
    ensures
        told_of(
            *old(db),
            *final(db),
            insert_notification(notification@),
            told,
            inserted_id(final(db).last_reply()),
        ),
{
    report(create_notification(db, &notification))
}

/// The notification with this identifier.
pub fn notification_get_by_id(db: &mut Database, notification_id: i64) -> (told: Result<Notification, String>)
    ensures
        told_of(
            *old(db),
            *final(db),
            select_notification_by_id(notification_id),
            told,
            one_of_reply::<Notification>(final(db).last_reply()),
        ),
{
    report(get_notification_by_id(db, notification_id))
}

/// Marks a notification as read.
pub fn notification_mark_as_read(db: &mut Database, notification_id: i64) -> (told: Result<(), String>)
    ensures
        told_of(
            *old(db),
            *final(db),
            mark_notification_read(notification_id),
            told,
            done(final(db).last_reply()),
        ),
{
    report(mark_notification_as_read(db, notification_id))
}

/// Marks as read all notifications of a user, or all those for all.
pub fn notification_mark_all_as_read(db: &mut Database, user_id: Option<i64>) -> (told: Result<(), String>)
    ensures
        told_of(
            *old(db),
            *final(db),
            mark_all_read(user_id),
            told,
            done(final(db).last_reply()),
        ),
{
    report(mark_all_notifications_as_read(db, user_id))
}

/// Removes a notification.
pub fn notification_delete(db: &mut Database, notification_id: i64) -> (told: Result<(), String>)
    ensures
        told_of(
            *old(db),
            *final(db),
            delete_notification_statement(notification_id),
            told,
            done(final(db).last_reply()),
        ),
{
    report(delete_notification(db, notification_id))
}

/// The number of unread notifications that have not expired.
pub fn notification_get_unread_count(db: &mut Database, user_id: Option<i64>) -> (told: Result<i64, String>)
    ensures
        told_of(
            *old(db),
            *final(db),
            count_unread(user_id),
            told,
            count_of_reply(final(db).last_reply()),
        ),
{
    report(get_unread_notifications_count(db, user_id))
}

/// One page of the notifications that have not expired, newest first.
pub fn notification_get_for_user(db: &mut Database, user_id: Option<i64>, limit: i64, offset: i64, include_read: bool) -> (told: Result<Vec<Notification>, String>)
    ensures
        told_of(
            *old(db),
            *final(db),
            list_notifications(user_id, limit, offset, include_read),
            told,
            all_of_reply::<Notification>(final(db).last_reply()),
        ),
{
    report(get_notifications_for_user(db, user_id, limit, offset, include_read))
}

/// Removes the expired notifications and gives their number.
pub fn notification_purge_expired(db: &mut Database) -> (told: Result<usize, String>)
    ensures
        told_of(
            *old(db),
            *final(db),
            purge_expired(),
            told,
            changed_rows(final(db).last_reply()),
        ),
{
    report(purge_expired_notifications(db))
}

} // verus!
