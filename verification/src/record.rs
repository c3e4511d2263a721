//! Records that are read from the rows of a query.

use vstd::prelude::*;
use crate::columns::{ColumnKind, check_row, decoded};
use crate::error::{DbError, Failure, same_outcome};
use crate::store::{
    Database, Reply, Statement, asked, changed_rows, done, done_on_existing, inserted_id, rows_of,
};
use crate::value::{SqlValue, SqlDatum};

verus! {

/// A record with a fixed list of columns.
pub trait Record: DeepView + Sized {
    /// What each column is read as, in the order of the query.
    spec fn kinds() -> Seq<ColumnKind>;

    /// The record whose fields a row holds.
    spec fn of_fields(row: Seq<SqlDatum>) -> Self::V;

    fn columns() -> (kinds: Vec<ColumnKind>)
        ensures
            kinds@ == Self::kinds(),
    ;

    /// Takes the fields out of a row that has all the columns. A column that
    /// holds a value of the wrong kind gives an empty field: `read_row` checks
    /// the row first.
    fn from_fields(row: &Vec<SqlValue>) -> (record: Self)
        requires
            Self::kinds().len() <= row.len(),
        ensures
            record.deep_view() == Self::of_fields(row.deep_view()),
    ;
}

/// The record that a row holds, or the failure that names its first bad column.
pub open spec fn record_of_row<T: Record>(row: Seq<SqlDatum>) -> Result<T::V, Failure> {
    decoded(row, T::kinds(), T::of_fields(row))
}

/// The records of all rows in order, or the failure of the first row that has one.
pub open spec fn records_of_rows<T: Record>(rows: Seq<Seq<SqlDatum>>) -> Result<Seq<T::V>, Failure>
    decreases rows.len(),
{
    if rows.len() == 0 {
        Ok(Seq::empty())
    } else {
        match records_of_rows::<T>(rows.drop_last()) {
            Err(failure) => Err(failure),
            Ok(records) => match record_of_row::<T>(rows.last()) {
                Err(failure) => Err(failure),
                Ok(record) => Ok(records.push(record)),
            },
        }
    }
}

/// The record of the first row; a failure where there is no row.
pub open spec fn first_record<T: Record>(rows: Seq<Seq<SqlDatum>>) -> Result<T::V, Failure> {
    if rows.len() == 0 {
        Err(Failure::NotFound)
    } else {
        record_of_row::<T>(rows[0])
    }
}

/// The record of the first row; nothing where there is no row.
pub open spec fn optional_record<T: Record>(rows: Seq<Seq<SqlDatum>>) -> Result<Option<T::V>, Failure> {
    if rows.len() == 0 {
        Ok(None)
    } else {
        match record_of_row::<T>(rows[0]) {
            Ok(record) => Ok(Some(record)),
            Err(failure) => Err(failure),
        }
    }
}

/// Reads one row as a record.
pub fn read_row<T: Record>(row: &Vec<SqlValue>) -> (read: Result<T, DbError>)
    ensures
        same_outcome(read, record_of_row::<T>(row.deep_view())),
{
    let kinds = T::columns();
    match check_row(row, &kinds) {
        Ok(()) => Ok(T::from_fields(row)),
        Err(failure) => Err(failure),
    }
}

/// Reads every row as a record, stopping at the first that cannot be read.
pub fn read_all<T: Record>(rows: &Vec<Vec<SqlValue>>) -> (read: Result<Vec<T>, DbError>)
    ensures
        same_outcome(read, records_of_rows::<T>(rows.deep_view())),
{
    let mut records: Vec<T> = Vec::new();
    let mut i: usize = 0;
    assert(rows.deep_view().take(0) =~= Seq::<Seq<SqlDatum>>::empty());
    assert(records.deep_view() =~= Seq::<T::V>::empty());
    while i < rows.len()
        invariant
            i <= rows.len(),
            records_of_rows::<T>(rows.deep_view().take(i as int)) == Ok::<Seq<T::V>, Failure>(
                records.deep_view(),
            ),
        decreases rows.len() - i,
    {
        let ghost before = rows.deep_view().take(i as int);
        let ghost upto = rows.deep_view().take(i + 1);
        assert(upto.drop_last() =~= before);
        assert(upto.last() == rows[i as int].deep_view());
        match read_row::<T>(&rows[i]) {
            Ok(record) => {
                let ghost earlier = records.deep_view();
                records.push(record);
                assert(records.deep_view() =~= earlier.push(record.deep_view()));
            },
            Err(failure) => {
                proof {
                    lemma_failure_stays::<T>(rows.deep_view(), i + 1);
                }
                return Err(failure);
            },
        }
        i = i + 1;
    }
    assert(rows.deep_view().take(rows.len() as int) =~= rows.deep_view());
    Ok(records)
}

/// Once a row cannot be read, the rows after it change nothing.
pub proof fn lemma_failure_stays<T: Record>(rows: Seq<Seq<SqlDatum>>, n: int)
    requires
        0 <= n <= rows.len(),
        records_of_rows::<T>(rows.take(n)) is Err,
    ensures
        records_of_rows::<T>(rows) == records_of_rows::<T>(rows.take(n)),
    decreases rows.len() - n,
{
    if n < rows.len() {
        assert(rows.take(n + 1).drop_last() =~= rows.take(n));
        lemma_failure_stays::<T>(rows, n + 1);
    } else {
        assert(rows.take(n) =~= rows);
    }
}

/// Reads the first row as a record.
pub fn read_first<T: Record>(rows: &Vec<Vec<SqlValue>>) -> (read: Result<T, DbError>)
    ensures
        same_outcome(read, first_record::<T>(rows.deep_view())),
{
    if rows.len() == 0 {
        Err(DbError::NotFound)
    } else {
        read_row::<T>(&rows[0])
    }
}

/// Reads the first row as a record, if there is a row.
pub fn read_optional<T: Record>(rows: &Vec<Vec<SqlValue>>) -> (read: Result<Option<T>, DbError>)
    ensures
        same_outcome(read, optional_record::<T>(rows.deep_view())),
{
    if rows.len() == 0 {
        Ok(None)
    } else {
        match read_row::<T>(&rows[0]) {
            Ok(record) => Ok(Some(record)),
            Err(failure) => Err(failure),
        }
    }
}

/// What the caller gets: the value read off the reply on an open handle, the
/// failure `NotInitialized` on a closed one.
pub open spec fn answered<T: DeepView>(
    before: Database,
    after: Database,
    statement: Statement,
    got: Result<T, DbError>,
    read: Result<T::V, Failure>,
) -> bool {
    &&& asked(before, after, statement)
    &&& same_outcome(got, if before.is_open() { read } else { Err(Failure::NotInitialized) })
}

/// The record in the first row of the reply.
pub open spec fn one_of_reply<T: Record>(reply: Reply) -> Result<T::V, Failure> {
    match rows_of(reply) {
        Ok(rows) => first_record::<T>(rows),
        Err(failure) => Err(failure),
    }
}

/// The record in the first row of the reply, if it has a row.
pub open spec fn optional_of_reply<T: Record>(reply: Reply) -> Result<Option<T::V>, Failure> {
    match rows_of(reply) {
        Ok(rows) => optional_record::<T>(rows),
        Err(failure) => Err(failure),
    }
}

/// The records in all rows of the reply.
pub open spec fn all_of_reply<T: Record>(reply: Reply) -> Result<Seq<T::V>, Failure> {
    match rows_of(reply) {
        Ok(rows) => records_of_rows::<T>(rows),
        Err(failure) => Err(failure),
    }
}

/// Runs an insert and gives the identifier of the new row.
pub fn insert(db: &mut Database, sql: &str, params: &Vec<SqlValue>) -> (id: Result<i64, DbError>)
    ensures
        answered(
            *old(db),
            *final(db),
            (Statement { sql: sql@, params: params.deep_view() }),
            id,
            inserted_id(final(db).last_reply()),
        ),
{
    match db.execute(sql, params) {
        Ok(written) => Ok(written.last_rowid),
        Err(failure) => Err(failure),
    }
}

/// Runs a statement that changes rows.
pub fn change(db: &mut Database, sql: &str, params: &Vec<SqlValue>) -> (changed: Result<(), DbError>)
    ensures
        answered(
            *old(db),
            *final(db),
            (Statement { sql: sql@, params: params.deep_view() }),
            changed,
            done(final(db).last_reply()),
        ),
{
    match db.execute(sql, params) {
        Ok(_) => Ok(()),
        Err(failure) => Err(failure),
    }
}

/// Runs a statement that must change a row.
pub fn change_existing(db: &mut Database, sql: &str, params: &Vec<SqlValue>) -> (changed: Result<(), DbError>)
    ensures
        answered(
            *old(db),
            *final(db),
            (Statement { sql: sql@, params: params.deep_view() }),
            changed,
            done_on_existing(final(db).last_reply()),
        ),
{
    match db.execute(sql, params) {
        Ok(written) => if written.changed == 0 {
            Err(DbError::NotFound)
        } else {
            Ok(())
        },
        Err(failure) => Err(failure),
    }
}

/// Runs a statement and gives the number of rows it changed.
pub fn change_counting(db: &mut Database, sql: &str, params: &Vec<SqlValue>) -> (changed: Result<usize, DbError>)
    ensures
        answered(
            *old(db),
            *final(db),
            (Statement { sql: sql@, params: params.deep_view() }),
            changed,
            changed_rows(final(db).last_reply()),
        ),
{
    match db.execute(sql, params) {
        Ok(written) => Ok(written.changed),
        Err(failure) => Err(failure),
    }
}

/// Runs a query that must find a record.
pub fn fetch_one<T: Record>(db: &mut Database, sql: &str, params: &Vec<SqlValue>) -> (found: Result<T, DbError>)
    ensures
        answered(
            *old(db),
            *final(db),
            (Statement { sql: sql@, params: params.deep_view() }),
            found,
            one_of_reply::<T>(final(db).last_reply()),
        ),
{
    match db.query(sql, params) {
        Ok(rows) => read_first::<T>(&rows),
        Err(failure) => Err(failure),
    }
}

/// Runs a query that may find a record.
pub fn fetch_optional<T: Record>(db: &mut Database, sql: &str, params: &Vec<SqlValue>) -> (found: Result<
    Option<T>,
    DbError,
>)
    ensures
        answered(
            *old(db),
            *final(db),
            (Statement { sql: sql@, params: params.deep_view() }),
            found,
            optional_of_reply::<T>(final(db).last_reply()),
        ),
{
    match db.query(sql, params) {
        Ok(rows) => read_optional::<T>(&rows),
        Err(failure) => Err(failure),
    }
}

/// Runs a query and reads all the records it finds.
pub fn fetch_all<T: Record>(db: &mut Database, sql: &str, params: &Vec<SqlValue>) -> (found: Result<
    Vec<T>,
    DbError,
>)
    ensures
        answered(
            *old(db),
            *final(db),
            (Statement { sql: sql@, params: params.deep_view() }),
            found,
            all_of_reply::<T>(final(db).last_reply()),
        ),
{
    match db.query(sql, params) {
        Ok(rows) => read_all::<T>(&rows),
        Err(failure) => Err(failure),
    }
}

} // verus!
