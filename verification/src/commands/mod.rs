//! What the host asks of the register. Each command runs one service and
//! tells a failure in text.

pub mod enfant_commands;
pub mod fokotany_commands;
pub mod hameau_commands;
pub mod notification_commands;
pub mod user_commands;
pub mod vaccin_commands;
pub mod vaccination_commands;

use vstd::prelude::*;
use vstd::string::StringExecFns;
use crate::error::{DbError, Failure, failure_text, reported};
use crate::schema::{initialize_schema, schema_statements};
use crate::store::{
    Database, Exchange, STORE_FILE, Statement, asked, done, initialize_db, opening, path_under,
    store_path,
};
use crate::transaction::{continues, in_transaction, trace, wrote_in_order};

verus! {

/// What the host is told once the store is ready.
pub const INITIALIZED: &'static str = "Database initialized successfully";

/// What a command that asks one statement tells: on an open handle what is
/// read off the store's reply, on a closed one the failure `NotInitialized`,
/// with a failure told in text.
pub open spec fn told_of<T: DeepView>(
    before: Database,
    after: Database,
    statement: Statement,
    told: Result<T, String>,
    read: Result<T::V, Failure>,
) -> bool {
    &&& asked(before, after, statement)
    &&& reported(told, if before.is_open() { read } else { Err(Failure::NotInitialized) })
}

/// What a command that runs a transaction tells: the result of the
/// transaction, with a failure told in text.
pub open spec fn told_in_transaction<T: DeepView>(
    before: Database,
    after: Database,
    told: Result<T, String>,
    body: spec_fn(Seq<Exchange>, Result<T::V, Failure>) -> bool,
) -> bool {
    exists|inner: Result<T::V, Failure>| in_transaction(before, after, inner, body) && #[trigger] reported(
        told,
        inner,
    )
}

/// The store was opened and the whole schema set up on it.
pub open spec fn made_ready(before: Database, after: Database, app_dir: Seq<char>) -> bool {
    exists|opened: Database|
        {
            &&& #[trigger] opening(before, opened, Some(store_path(app_dir)), Ok(()))
            &&& continues(opened, after)
            &&& wrote_in_order(schema_statements(), trace(opened, after), Ok::<(), Failure>(()))
        }
}

/// The store could not be opened, or refused the enforcement of foreign keys.
pub open spec fn not_opened(before: Database, after: Database, app_dir: Seq<char>, text: Seq<char>) -> bool {
    exists|failure: DbError|
        #[trigger] opening(before, after, Some(store_path(app_dir)), Err(failure)) && text == failure_text(failure@)
}

/// The store was opened, and refused a statement of the schema.
pub open spec fn schema_refused(before: Database, after: Database, app_dir: Seq<char>, text: Seq<char>) -> bool {
    exists|opened: Database|
        {
            &&& #[trigger] opening(before, opened, Some(store_path(app_dir)), Ok(()))
            &&& continues(opened, after)
            &&& done(after.last_reply()) is Err
            &&& text == failure_text(done(after.last_reply())->Err_0)
            &&& wrote_in_order(schema_statements(), trace(opened, after), done(after.last_reply()))
        }
}

/// Opens the store in the directory `app_dir`, which must exist, and sets up
/// the schema.
pub fn init_database(db: &mut Database, app_dir: &str) -> (told: Result<String, String>)
    ensures
        match told {
            Ok(text) => text@ == INITIALIZED@ && made_ready(*old(db), *final(db), app_dir@),
            Err(text) => not_opened(*old(db), *final(db), app_dir@, text@) || schema_refused(
                *old(db),
                *final(db),
                app_dir@,
                text@,
            ),
        },
{
    let ghost before = *db;
    let opened = initialize_db(db, app_dir);
    let ghost at = *db;
    match opened {
        Ok(()) => {},
        Err(failure) => {
            assert(opening(before, at, Some(store_path(app_dir@)), Err(failure)));
            return Err(failure.message());
        },
    }
    assert(opening(before, at, Some(store_path(app_dir@)), Ok(())));
    match initialize_schema(db) {
        Ok(()) => Ok(String::from_str(INITIALIZED)),
        Err(failure) => {
            assert(trace(at, *db).last() == db.journal().last());
            Err(failure.message())
        },
    }
}

/// The path of the store in the directory `app_dir`: the very file that
/// `init_database` opens there. Nothing is opened or written.
pub fn get_database_path(app_dir: &str) -> (told: Result<String, String>)
    ensures
        told matches Ok(path) && path@ == store_path(app_dir@),
{
    Ok(path_under(app_dir, STORE_FILE))
}

} // verus!
