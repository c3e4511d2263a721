//! The handle on the store, and the journal of what was asked of it.
//!
//! Nothing is claimed about what the store holds. What is stated instead is the
//! conversation: every statement handed to the store is recorded, with its bound
//! values and with the store's reply, in a ghost journal. The contracts of the
//! services say which statements are issued, in which order, and how each result
//! is read off the replies.
//!
//! The journal is written in three places only, all of them here: `adopt`,
//! `execute` and `query`. Each appends one exchange, made of the very text and
//! values that it hands to the store and of what came back. No proof ties an
//! entry to the call that it stands for, since a call into the store has no
//! contract to tie it to. Whoever changes one of these three bodies has to
//! keep the entry and the call the same by hand: every contract of the
//! services rests on it.

use vstd::prelude::*;
use vstd::string::{StrSliceExecFns, StringExecFns};
use crate::error::{DbError, Failure, same_outcome};
use crate::value::{SqlValue, SqlDatum};

verus! {

#[verifier::external_type_specification]
#[verifier::external_body]
pub struct ExConnection(rusqlite::Connection);

#[verifier::external_type_specification]
#[verifier::external_body]
pub struct ExStoreError(rusqlite::Error);

#[verifier::external_type_specification]
#[verifier::external_body]
pub struct ExStoreValue(rusqlite::types::Value);

/// A statement as the store receives it: its text and the values bound to `?1`, `?2`, ...
pub struct Statement {
    pub sql: Seq<char>,
    pub params: Seq<SqlDatum>,
}

/// What the store answered to one statement.
pub enum Reply {
    /// A statement that changes rows was carried out.
    Written { changed: usize, last_rowid: i64 },
    /// A query returned these rows, in this order.
    Rows(Seq<Seq<SqlDatum>>),
    /// The store refused, with this text.
    Refused(Seq<char>),
}

/// One statement together with the store's reply.
pub struct Exchange {
    pub statement: Statement,
    pub reply: Reply,
}

/// What a statement that changes rows reports.
#[derive(Clone, Copy, Debug, PartialEq, Eq)]
pub struct Written {
    /// Number of rows inserted, updated or deleted.
    pub changed: usize,
    /// Row identifier of the most recent successful insert on the connection.
    pub last_rowid: i64,
}

impl View for Written {
    type V = Written;

    open spec fn view(&self) -> Written {
        *self
    }
}

impl DeepView for Written {
    type V = Written;

    open spec fn deep_view(&self) -> Written {
        *self
    }
}

/// The result of a statement that changes rows, read off the store's reply.
/// Rows, which the store never gives in reply to such a statement, read as
/// nothing changed.
pub open spec fn written_of(reply: Reply) -> Result<Written, Failure> {
    match reply {
        Reply::Written { changed, last_rowid } => Ok(Written { changed, last_rowid }),
        Reply::Rows(_) => Ok(Written { changed: 0, last_rowid: 0 }),
        Reply::Refused(text) => Err(Failure::Store(text)),
    }
}

/// The rows of a query, read off the store's reply. A count of changes,
/// which the store never gives in reply to a query, reads as no rows.
pub open spec fn rows_of(reply: Reply) -> Result<Seq<Seq<SqlDatum>>, Failure> {
    match reply {
        Reply::Rows(rows) => Ok(rows),
        Reply::Written { .. } => Ok(Seq::empty()),
        Reply::Refused(text) => Err(Failure::Store(text)),
    }
}

/// The row identifier that an insert reports.
pub open spec fn inserted_id(reply: Reply) -> Result<i64, Failure> {
    match written_of(reply) {
        Ok(written) => Ok(written.last_rowid),
        Err(failure) => Err(failure),
    }
}

/// Nothing, once the statement was carried out.
pub open spec fn done(reply: Reply) -> Result<(), Failure> {
    match written_of(reply) {
        Ok(_) => Ok(()),
        Err(failure) => Err(failure),
    }
}

/// Nothing, once the statement changed a row; `NotFound` where it changed none.
pub open spec fn done_on_existing(reply: Reply) -> Result<(), Failure> {
    match written_of(reply) {
        Ok(written) => if written.changed == 0 {
            Err(Failure::NotFound)
        } else {
            Ok(())
        },
        Err(failure) => Err(failure),
    }
}

/// The number of rows that the statement changed.
pub open spec fn changed_rows(reply: Reply) -> Result<usize, Failure> {
    match written_of(reply) {
        Ok(written) => Ok(written.changed),
        Err(failure) => Err(failure),
    }
}

/// File name of the store inside the application's data directory.
pub const STORE_FILE: &'static str = "csb.db";

/// The statement that switches on the enforcement of foreign keys.
pub const ENFORCE_FOREIGN_KEYS: &'static str = "PRAGMA foreign_keys = ON";

/// Starts a transaction.
pub const BEGIN: &'static str = "BEGIN";

/// Makes the writes of the transaction last.
pub const COMMIT: &'static str = "COMMIT";

/// Undoes the writes of the transaction.
pub const ROLLBACK: &'static str = "ROLLBACK";

/// A statement without bound values.
pub open spec fn plain(sql: Seq<char>) -> Statement {
    Statement { sql, params: Seq::empty() }
}

/// The path of the file `name` in `directory`: the two joined by `/`, unless
/// the directory is empty or ends with `/` already.
pub open spec fn path_in(directory: Seq<char>, name: Seq<char>) -> Seq<char> {
    if directory.len() == 0 || directory.last() == '/' {
        directory + name
    } else {
        directory + seq!['/'] + name
    }
}

/// The path of the file `name` in `directory`.
pub fn path_under(directory: &str, name: &str) -> (path: String)
    ensures
        path@ == path_in(directory@, name@),
{
    let length = directory.unicode_len();
    let mut path = String::from_str(directory);
    if length > 0 && directory.get_char(length - 1) != '/' {
        proof {
            reveal_strlit("/");
        }
        path.append("/");
    }
    path.append(name);
    path
}

/// `rusqlite::Connection::open`: opens the store kept in the file at `path`,
/// creating the file when it does not exist. Whether it succeeds is the file
/// system's to decide.
#[verifier::external_body]
fn sqlite_open(path: &str) -> (opened: Result<rusqlite::Connection, rusqlite::Error>) {
    rusqlite::Connection::open(path)
}

/// `rusqlite::Connection::open_in_memory`: opens a fresh store that lives in
/// memory only.
#[verifier::external_body]
fn sqlite_open_in_memory() -> (opened: Result<rusqlite::Connection, rusqlite::Error>) {
    rusqlite::Connection::open_in_memory()
}

/// `rusqlite::Connection::execute`: prepares `sql`, binds `params` in order and
/// runs the statement; the number is that of the rows it changed. What comes
/// back depends on what the store holds.
#[verifier::external_body]
fn sqlite_execute(
    connection: &rusqlite::Connection,
    sql: &str,
    params: &Vec<rusqlite::types::Value>,
) -> (done: Result<usize, rusqlite::Error>) {
    connection.execute(sql, rusqlite::params_from_iter(params.iter()))
}

/// `rusqlite::Connection::last_insert_rowid`: the row identifier of the most
/// recent successful insert on this connection.
#[verifier::external_body]
fn sqlite_last_insert_rowid(connection: &rusqlite::Connection) -> (rowid: i64) {
    connection.last_insert_rowid()
}

/// `rusqlite::Statement::query` after `Connection::prepare`, read to the end
/// with `Rows::next` and `Row::get`: every row that the query returns, each with
/// all its columns, in the store's order. What comes back depends on what the
/// store holds.
#[verifier::external_body]
fn sqlite_query(
    connection: &rusqlite::Connection,
    sql: &str,
    params: &Vec<rusqlite::types::Value>,
) -> (found: Result<Vec<Vec<rusqlite::types::Value>>, rusqlite::Error>) {
    let mut statement = connection.prepare(sql)?;
    let width = statement.column_count();
    let mut rows = statement.query(rusqlite::params_from_iter(params.iter()))?;
    let mut table = Vec::new();
    while let Some(row) = rows.next()? {
        table.push((0..width).map(|i| row.get(i)).collect::<Result<Vec<_>, _>>()?);
    }
    Ok(table)
}

/// The `Display` text of a `rusqlite::Error`.
#[verifier::external_body]
fn sqlite_error_text(error: &rusqlite::Error) -> (text: String) {
    error.to_string()
}

/// The `rusqlite::types::Value` that is bound for a `SqlValue`: the variant
/// of the same name, with the same content.
#[verifier::external_body]
fn to_store_value(value: &SqlValue) -> (bound: rusqlite::types::Value) {
    match value {
        SqlValue::Null => rusqlite::types::Value::Null,
        SqlValue::Integer(n) => rusqlite::types::Value::Integer(*n),
        SqlValue::Text(text) => rusqlite::types::Value::Text(text.clone()),
        SqlValue::Blob(bytes) => rusqlite::types::Value::Blob(bytes.clone()),
    }
}

/// The `SqlValue` for a `rusqlite::types::Value` read from a column: the
/// variant of the same name, with the same content, but for a real number,
/// which comes out as the text that `to_string` gives for it.
#[verifier::external_body]
fn from_store_value(value: &rusqlite::types::Value) -> (read: SqlValue) {
    match value {
        rusqlite::types::Value::Null => SqlValue::Null,
        rusqlite::types::Value::Integer(n) => SqlValue::Integer(*n),
        rusqlite::types::Value::Real(x) => SqlValue::Text(x.to_string()),
        rusqlite::types::Value::Text(text) => SqlValue::Text(text.clone()),
        rusqlite::types::Value::Blob(bytes) => SqlValue::Blob(bytes.clone()),
    }
}

fn to_store_values(params: &Vec<SqlValue>) -> (bound: Vec<rusqlite::types::Value>)
    ensures
        bound.len() == params.len(),
{
    let mut bound: Vec<rusqlite::types::Value> = Vec::new();
    let mut i: usize = 0;
    while i < params.len()
        invariant
            i <= params.len(),
            bound.len() == i,
        decreases params.len() - i,
    {
        bound.push(to_store_value(&params[i]));
        i = i + 1;
    }
    bound
}

fn from_store_row(row: &Vec<rusqlite::types::Value>) -> (read: Vec<SqlValue>)
    ensures
        read.len() == row.len(),
{
    let mut read: Vec<SqlValue> = Vec::new();
    let mut i: usize = 0;
    while i < row.len()
        invariant
            i <= row.len(),
            read.len() == i,
        decreases row.len() - i,
    {
        read.push(from_store_value(&row[i]));
        i = i + 1;
    }
    read
}

fn from_store_rows(table: &Vec<Vec<rusqlite::types::Value>>) -> (read: Vec<Vec<SqlValue>>)
    ensures
        read.len() == table.len(),
{
    let mut read: Vec<Vec<SqlValue>> = Vec::new();
    let mut i: usize = 0;
    while i < table.len()
        invariant
            i <= table.len(),
            read.len() == i,
        decreases table.len() - i,
    {
        read.push(from_store_row(&table[i]));
        i = i + 1;
    }
    read
}

/// The handle on the store.
///
/// It is created closed; `initialize_db` opens it. The journal lists, oldest
/// first, every statement that went to the store through this handle, and the
/// location is the path of the file that the connection was opened on.
pub struct Database {
    connection: Option<rusqlite::Connection>,
    location: Ghost<Option<Seq<char>>>,
    journal: Ghost<Seq<Exchange>>,
}

impl Database {
    /// Whether a connection has been opened on this handle.
    pub closed spec fn is_open(&self) -> bool {
        self.connection is Some
    }

    /// Every exchange with the store so far, oldest first.
    pub closed spec fn journal(&self) -> Seq<Exchange> {
        self.journal@
    }

    /// The path of the file that the connection was opened on; nothing for a
    /// closed handle and for a store that lives in memory.
    pub closed spec fn location(&self) -> Option<Seq<char>> {
        self.location@
    }

    /// The store's reply to the most recent statement.
    pub open spec fn last_reply(&self) -> Reply {
        self.journal().last().reply
    }

    /// A handle on which no connection has been opened yet.
    pub fn new() -> (db: Database)
        ensures
            !db.is_open(),
            db.location() is None,
            db.journal() == Seq::<Exchange>::empty(),
    {
        Database { connection: None, location: Ghost(None), journal: Ghost(Seq::empty()) }
    }

    /// Whether a connection has been opened on this handle.
    pub fn is_initialized(&self) -> (open: bool)
        ensures
            open == self.is_open(),
    {
        self.connection.is_some()
    }

    /// Takes a fresh connection: switches on the enforcement of foreign keys
    /// on it and, once that is done, keeps it as this handle's connection.
    fn adopt(&mut self, connection: rusqlite::Connection, Ghost(path): Ghost<Option<Seq<char>>>) -> (adopted:
        Result<(), DbError>)
        ensures
            final(self).journal() == old(self).journal().push(final(self).journal().last()),
            final(self).journal().last().statement == plain(ENFORCE_FOREIGN_KEYS@),
            same_outcome(adopted, done(final(self).last_reply())),
            final(self).is_open() == (adopted is Ok || old(self).is_open()),
            final(self).location() == if adopted is Ok { path } else { old(self).location() },
    {
        let params: Vec<SqlValue> = Vec::new();
        let bound = to_store_values(&params);
        let ghost statement = plain(ENFORCE_FOREIGN_KEYS@);
        assert(params.deep_view() =~= Seq::<SqlDatum>::empty());
        match sqlite_execute(&connection, ENFORCE_FOREIGN_KEYS, &bound) {
            Ok(changed) => {
                let last_rowid = sqlite_last_insert_rowid(&connection);
                proof {
                    self.journal@ = self.journal@.push(
                        Exchange { statement, reply: Reply::Written { changed, last_rowid } },
                    );
                }
                self.connection = Some(connection);
                proof {
                    self.location@ = path;
                }
                Ok(())
            },
            Err(error) => {
                let text = sqlite_error_text(&error);
                proof {
                    self.journal@ = self.journal@.push(
                        Exchange { statement, reply: Reply::Refused(text@) },
                    );
                }
                Err(DbError::Store(text))
            },
        }
    }

    /// Runs a statement that changes rows.
    pub fn execute(&mut self, sql: &str, params: &Vec<SqlValue>) -> (done: Result<Written, DbError>)
        ensures
            asked(*old(self), *final(self), (Statement { sql: sql@, params: params.deep_view() })),
            same_outcome(
                done,
                if old(self).is_open() {
                    written_of(final(self).last_reply())
                } else {
                    Err(Failure::NotInitialized)
                },
            ),
            old(self).is_open() ==> !(final(self).last_reply() is Rows),
    {
        match &self.connection {
            None => Err(DbError::NotInitialized),
            Some(connection) => {
                let bound = to_store_values(params);
                let ghost statement = Statement { sql: sql@, params: params.deep_view() };
                match sqlite_execute(connection, sql, &bound) {
                    Ok(changed) => {
                        let last_rowid = sqlite_last_insert_rowid(connection);
                        proof {
                            self.journal@ = self.journal@.push(
                                Exchange { statement, reply: Reply::Written { changed, last_rowid } },
                            );
                        }
                        Ok(Written { changed, last_rowid })
                    },
                    Err(error) => {
                        let text = sqlite_error_text(&error);
                        proof {
                            self.journal@ = self.journal@.push(
                                Exchange { statement, reply: Reply::Refused(text@) },
                            );
                        }
                        Err(DbError::Store(text))
                    },
                }
            },
        }
    }

    /// Runs a query and reads all its rows.
    pub fn query(&mut self, sql: &str, params: &Vec<SqlValue>) -> (found: Result<Vec<Vec<SqlValue>>, DbError>)
        ensures
            asked(*old(self), *final(self), (Statement { sql: sql@, params: params.deep_view() })),
            same_outcome(
                found,
                if old(self).is_open() {
                    rows_of(final(self).last_reply())
                } else {
                    Err(Failure::NotInitialized)
                },
            ),
            old(self).is_open() ==> !(final(self).last_reply() is Written),
    {
        match &self.connection {
            None => Err(DbError::NotInitialized),
            Some(connection) => {
                let bound = to_store_values(params);
                let ghost statement = Statement { sql: sql@, params: params.deep_view() };
                match sqlite_query(connection, sql, &bound) {
                    Ok(table) => {
                        let rows = from_store_rows(&table);
                        proof {
                            self.journal@ = self.journal@.push(
                                Exchange { statement, reply: Reply::Rows(rows.deep_view()) },
                            );
                        }
                        Ok(rows)
                    },
                    Err(error) => {
                        let text = sqlite_error_text(&error);
                        proof {
                            self.journal@ = self.journal@.push(
                                Exchange { statement, reply: Reply::Refused(text@) },
                            );
                        }
                        Err(DbError::Store(text))
                    },
                }
            },
        }
    }
}

/// What opening the store at `path` does to a handle: either the store could
/// not be opened and nothing changed, or the enforcement of foreign keys was
/// asked of the new connection, which the handle keeps, in place of the one
/// it had, if the store agreed.
pub open spec fn opening(
    before: Database,
    after: Database,
    path: Option<Seq<char>>,
    opened: Result<(), DbError>,
) -> bool {
    ||| {
        &&& opened matches Err(DbError::Store(_))
        &&& after.is_open() == before.is_open()
        &&& after.location() == before.location()
        &&& after.journal() == before.journal()
    }
    ||| {
        &&& after.journal() == before.journal().push(after.journal().last())
        &&& after.journal().last().statement == plain(ENFORCE_FOREIGN_KEYS@)
        &&& same_outcome(opened, done(after.last_reply()))
        &&& after.is_open() == (opened is Ok || before.is_open())
        &&& after.location() == if opened is Ok { path } else { before.location() }
    }
}

/// The path of the store in the directory `app_dir`.
pub open spec fn store_path(app_dir: Seq<char>) -> Seq<char> {
    path_in(app_dir, STORE_FILE@)
}

/// Opens the store kept in the file `csb.db` of the directory `app_dir`,
/// creating the file where there is none, and switches on the enforcement of
/// foreign keys.
pub fn initialize_db(db: &mut Database, app_dir: &str) -> (opened: Result<(), DbError>)
    ensures
        opening(*old(db), *final(db), Some(store_path(app_dir@)), opened),
{
    let path = path_under(app_dir, STORE_FILE);
    match sqlite_open(path.as_str()) {
        Ok(connection) => db.adopt(connection, Ghost(Some(path@))),
        Err(error) => Err(DbError::Store(sqlite_error_text(&error))),
    }
}

/// Opens a fresh store that lives in memory only, and switches on the
/// enforcement of foreign keys.
pub fn initialize_in_memory(db: &mut Database) -> (opened: Result<(), DbError>)
    ensures
        opening(*old(db), *final(db), None, opened),
{
    match sqlite_open_in_memory() {
        Ok(connection) => db.adopt(connection, Ghost(None)),
        Err(error) => Err(DbError::Store(sqlite_error_text(&error))),
    }
}

/// The connection of an open handle.
pub fn get_connection(db: &Database) -> (connection: Result<&rusqlite::Connection, DbError>)
    ensures
        connection is Ok <==> db.is_open(),
        connection matches Err(failure) ==> failure@ == Failure::NotInitialized,
{
    match &db.connection {
        Some(connection) => Ok(connection),
        None => Err(DbError::NotInitialized),
    }
}

/// On an open handle exactly `statement` was put to the store, and its reply
/// recorded; on a closed handle nothing happened.
pub open spec fn asked(before: Database, after: Database, statement: Statement) -> bool {
    &&& after.is_open() == before.is_open()
    &&& after.location() == before.location()
    &&& if before.is_open() {
        &&& after.journal() == before.journal().push(after.journal().last())
        &&& after.journal().last().statement == statement
    } else {
        after.journal() == before.journal()
    }
}

} // verus!
