//! Reading the rows of a query: what each column may hold, and how a row that
//! holds it becomes a record.

use vstd::prelude::*;
use crate::dates::{Date, Instant, Timestamp, Ymd, date_of_text, instant_of_datum};
use crate::error::{DbError, Failure, same_outcome};
use crate::value::{SqlValue, SqlDatum};

verus! {

/// What a column of a record is read as.
#[derive(Clone, Copy, Debug)]
pub enum ColumnKind {
    /// An integer.
    Integer,
    /// An integer or nothing.
    OptionalInteger,
    /// A text.
    Text,
    /// A text or nothing.
    OptionalText,
    /// An integer read as a flag: set unless it is 0.
    Flag,
    /// A flag or nothing.
    OptionalFlag,
    /// A text that holds a date.
    Date,
    /// A text that holds a date, or nothing.
    OptionalDate,
    /// An instant or nothing.
    OptionalInstant,
}

/// Whether a stored value can be read as a column of this kind.
pub open spec fn fits(stored: SqlDatum, kind: ColumnKind) -> bool {
    match kind {
        ColumnKind::Integer => stored is Integer,
        ColumnKind::OptionalInteger => stored is Integer || stored is Null,
        ColumnKind::Text => stored is Text,
        ColumnKind::OptionalText => stored is Text || stored is Null,
        ColumnKind::Flag => stored is Integer,
        ColumnKind::OptionalFlag => stored is Integer || stored is Null,
        ColumnKind::Date => stored matches SqlDatum::Text(text) && date_of_text(text) is Some,
        ColumnKind::OptionalDate => stored is Null || (stored matches SqlDatum::Text(text) && date_of_text(
            text,
        ) is Some),
        ColumnKind::OptionalInstant => stored is Null || instant_of_datum(stored) is Some,
    }
}

/// The first column at or after `start` that the row lacks or that holds a
/// value of the wrong kind.
pub open spec fn first_misfit_from(row: Seq<SqlDatum>, kinds: Seq<ColumnKind>, start: int) -> Option<int>
    decreases kinds.len() - start,
{
    if start < 0 || start >= kinds.len() {
        None
    } else if start >= row.len() || !fits(row[start], kinds[start]) {
        Some(start)
    } else {
        first_misfit_from(row, kinds, start + 1)
    }
}

/// The first column that the row lacks or that holds a value of the wrong kind.
pub open spec fn first_misfit(row: Seq<SqlDatum>, kinds: Seq<ColumnKind>) -> Option<int> {
    first_misfit_from(row, kinds, 0)
}

/// Every column is there and holds a value of its kind.
pub open spec fn conforms(row: Seq<SqlDatum>, kinds: Seq<ColumnKind>) -> bool {
    &&& kinds.len() <= row.len()
    &&& forall|i: int| 0 <= i < kinds.len() ==> fits(#[trigger] row[i], kinds[i])
}

/// The record read from a row, or the failure that names its first bad column.
pub open spec fn decoded<T>(row: Seq<SqlDatum>, kinds: Seq<ColumnKind>, record: T) -> Result<T, Failure> {
    match first_misfit(row, kinds) {
        Some(column) => Err(Failure::Malformed { column: column as usize }),
        None => Ok(record),
    }
}

/// Column `i` is there and holds a value of its kind.
pub open spec fn holds_at(row: Seq<SqlDatum>, kinds: Seq<ColumnKind>, i: int) -> bool {
    0 <= i < row.len() && i < kinds.len() && fits(row[i], kinds[i])
}

/// Every column from `start` on is there and holds a value of its kind.
pub open spec fn holds_from(row: Seq<SqlDatum>, kinds: Seq<ColumnKind>, start: int) -> bool {
    forall|i: int| start <= i < kinds.len() ==> #[trigger] holds_at(row, kinds, i)
}

/// A row has no bad column exactly when it conforms; a bad column is one of
/// the record's.
pub proof fn lemma_no_misfit_conforms(row: Seq<SqlDatum>, kinds: Seq<ColumnKind>)
    ensures
        first_misfit(row, kinds) is None <==> conforms(row, kinds),
        first_misfit(row, kinds) matches Some(column) ==> 0 <= column < kinds.len() && !holds_at(
            row,
            kinds,
            column,
        ),
{
    lemma_misfit_from(row, kinds, 0);
    if holds_from(row, kinds, 0) {
        if kinds.len() > row.len() {
            assert(holds_at(row, kinds, row.len() as int));
        }
        assert forall|i: int| 0 <= i < kinds.len() implies fits(#[trigger] row[i], kinds[i]) by {
            assert(holds_at(row, kinds, i));
        }
    }
    if conforms(row, kinds) {
        assert forall|i: int| 0 <= i < kinds.len() implies #[trigger] holds_at(row, kinds, i) by {
            assert(fits(row[i], kinds[i]));
        }
    }
}

/// A column that is missing or holds a value of the wrong kind, after
/// columns that are all there and good, is the first bad column.
pub proof fn lemma_first_misfit(row: Seq<SqlDatum>, kinds: Seq<ColumnKind>, column: int)
    requires
        0 <= column < kinds.len(),
        !holds_at(row, kinds, column),
        forall|i: int| 0 <= i < column ==> #[trigger] holds_at(row, kinds, i),
    ensures
        first_misfit(row, kinds) == Some(column),
{
    lemma_misfit_from(row, kinds, 0);
    match first_misfit(row, kinds) {
        Some(bad) => {
            if bad < column {
                assert(holds_at(row, kinds, bad));
            } else if bad > column {
                assert(holds_at(row, kinds, column));
            }
        },
        None => {
            assert(holds_at(row, kinds, column));
        },
    }
}

proof fn lemma_misfit_from(row: Seq<SqlDatum>, kinds: Seq<ColumnKind>, start: int)
    requires
        0 <= start,
    ensures
        first_misfit_from(row, kinds, start) is None <==> holds_from(row, kinds, start),
        first_misfit_from(row, kinds, start) matches Some(column) ==> start <= column < kinds.len()
            && !holds_at(row, kinds, column) && forall|i: int|
            start <= i < column ==> #[trigger] holds_at(row, kinds, i),
    decreases kinds.len() - start,
{
    if start < kinds.len() {
        if start >= row.len() || !fits(row[start], kinds[start]) {
            assert(!holds_at(row, kinds, start));
        } else {
            assert(holds_at(row, kinds, start));
            lemma_misfit_from(row, kinds, start + 1);
            if holds_from(row, kinds, start + 1) {
                assert forall|i: int| start <= i < kinds.len() implies #[trigger] holds_at(
                    row,
                    kinds,
                    i,
                ) by {
                    if i > start {
                        assert(holds_at(row, kinds, i));
                    }
                }
            }
        }
    }
}

pub open spec fn as_integer(stored: SqlDatum) -> i64 {
    match stored {
        SqlDatum::Integer(n) => n,
        _ => 0,
    }
}

pub open spec fn as_optional_integer(stored: SqlDatum) -> Option<i64> {
    match stored {
        SqlDatum::Integer(n) => Some(n),
        _ => None,
    }
}

pub open spec fn as_text(stored: SqlDatum) -> Seq<char> {
    match stored {
        SqlDatum::Text(text) => text,
        _ => Seq::empty(),
    }
}

pub open spec fn as_optional_text(stored: SqlDatum) -> Option<Seq<char>> {
    match stored {
        SqlDatum::Text(text) => Some(text),
        _ => None,
    }
}

pub open spec fn as_flag(stored: SqlDatum) -> bool {
    match stored {
        SqlDatum::Integer(n) => n != 0,
        _ => false,
    }
}

pub open spec fn as_optional_flag(stored: SqlDatum) -> Option<bool> {
    match stored {
        SqlDatum::Integer(n) => Some(n != 0),
        _ => None,
    }
}

pub open spec fn as_optional_date(stored: SqlDatum) -> Option<Ymd> {
    match stored {
        SqlDatum::Text(text) => date_of_text(text),
        _ => None,
    }
}

pub open spec fn as_date(stored: SqlDatum) -> Ymd {
    match as_optional_date(stored) {
        Some(date) => date,
        None => Ymd { year: 1970, month: 1, day: 1 },
    }
}

pub open spec fn as_optional_instant(stored: SqlDatum) -> Option<Instant> {
    instant_of_datum(stored)
}

/// Whether a stored value can be read as a column of this kind.
pub fn value_fits(stored: &SqlValue, kind: ColumnKind) -> (fitting: bool)
    ensures
        fitting == fits(stored@, kind),
{
    match kind {
        ColumnKind::Integer | ColumnKind::Flag => match stored {
            SqlValue::Integer(_) => true,
            _ => false,
        },
        ColumnKind::OptionalInteger | ColumnKind::OptionalFlag => match stored {
            SqlValue::Integer(_) => true,
            SqlValue::Null => true,
            _ => false,
        },
        ColumnKind::Text => match stored {
            SqlValue::Text(_) => true,
            _ => false,
        },
        ColumnKind::OptionalText => match stored {
            SqlValue::Text(_) => true,
            SqlValue::Null => true,
            _ => false,
        },
        ColumnKind::Date => match stored {
            SqlValue::Text(text) => Date::parse(text.as_str()).is_some(),
            _ => false,
        },
        ColumnKind::OptionalDate => match stored {
            SqlValue::Null => true,
            SqlValue::Text(text) => Date::parse(text.as_str()).is_some(),
            _ => false,
        },
        ColumnKind::OptionalInstant => match stored {
            SqlValue::Null => true,
            _ => Timestamp::from_stored(stored).is_some(),
        },
    }
}

/// Checks a row against the kinds of its columns.
pub fn check_row(row: &Vec<SqlValue>, kinds: &Vec<ColumnKind>) -> (checked: Result<(), DbError>)
    ensures
        same_outcome(checked, decoded(row.deep_view(), kinds@, ())),
        checked is Ok <==> conforms(row.deep_view(), kinds@),
{
    let mut i: usize = 0;
    while i < kinds.len()
        invariant
            i <= kinds.len(),
            forall|j: int| 0 <= j < i ==> #[trigger] holds_at(row.deep_view(), kinds@, j),
        decreases kinds.len() - i,
    {
        if i >= row.len() || !value_fits(&row[i], kinds[i]) {
            proof {
                let stored = row.deep_view();
                lemma_misfit_from(stored, kinds@, 0);
                lemma_no_misfit_conforms(stored, kinds@);
                assert(!holds_at(stored, kinds@, i as int));
                match first_misfit(stored, kinds@) {
                    Some(bad) => {
                        if bad < i {
                            assert(holds_at(stored, kinds@, bad));
                        } else if bad > i {
                            assert(holds_at(stored, kinds@, i as int));
                        }
                    },
                    None => {
                        assert(holds_at(stored, kinds@, i as int));
                    },
                }
            }
            return Err(DbError::Malformed { column: i });
        }
        assert(holds_at(row.deep_view(), kinds@, i as int));
        i = i + 1;
    }
    proof {
        assert(holds_from(row.deep_view(), kinds@, 0));
        lemma_misfit_from(row.deep_view(), kinds@, 0);
        lemma_no_misfit_conforms(row.deep_view(), kinds@);
    }
    Ok(())
}

pub fn integer_of(row: &Vec<SqlValue>, i: usize) -> (n: i64)
    requires
        i < row.len(),
    ensures
        n == as_integer(row.deep_view()[i as int]),
{
    match &row[i] {
        SqlValue::Integer(n) => *n,
        _ => 0,
    }
}

pub fn optional_integer_of(row: &Vec<SqlValue>, i: usize) -> (n: Option<i64>)
    requires
        i < row.len(),
    ensures
        n == as_optional_integer(row.deep_view()[i as int]),
{
    match &row[i] {
        SqlValue::Integer(n) => Some(*n),
        _ => None,
    }
}

pub fn text_of(row: &Vec<SqlValue>, i: usize) -> (text: String)
    requires
        i < row.len(),
    ensures
        text@ == as_text(row.deep_view()[i as int]),
{
    match &row[i] {
        SqlValue::Text(text) => text.clone(),
        _ => String::new(),
    }
}

pub fn optional_text_of(row: &Vec<SqlValue>, i: usize) -> (text: Option<String>)
    requires
        i < row.len(),
    ensures
        text.deep_view() == as_optional_text(row.deep_view()[i as int]),
{
    match &row[i] {
        SqlValue::Text(text) => Some(text.clone()),
        _ => None,
    }
}

pub fn flag_of(row: &Vec<SqlValue>, i: usize) -> (set: bool)
    requires
        i < row.len(),
    ensures
        set == as_flag(row.deep_view()[i as int]),
{
    match &row[i] {
        SqlValue::Integer(n) => *n != 0,
        _ => false,
    }
}

pub fn optional_flag_of(row: &Vec<SqlValue>, i: usize) -> (set: Option<bool>)
    requires
        i < row.len(),
    ensures
        set == as_optional_flag(row.deep_view()[i as int]),
{
    match &row[i] {
        SqlValue::Integer(n) => Some(*n != 0),
        _ => None,
    }
}

pub fn optional_date_of(row: &Vec<SqlValue>, i: usize) -> (date: Option<Date>)
    requires
        i < row.len(),
    ensures
        date.deep_view() == as_optional_date(row.deep_view()[i as int]),
{
    match &row[i] {
        SqlValue::Text(text) => Date::parse(text.as_str()),
        _ => None,
    }
}

pub fn date_of(row: &Vec<SqlValue>, i: usize) -> (date: Date)
    requires
        i < row.len(),
    ensures
        date@ == as_date(row.deep_view()[i as int]),
{
    match optional_date_of(row, i) {
        Some(date) => date,
        None => Date::epoch(),
    }
}

pub fn optional_instant_of(row: &Vec<SqlValue>, i: usize) -> (instant: Option<Timestamp>)
    requires
        i < row.len(),
    ensures
        instant.deep_view() == as_optional_instant(row.deep_view()[i as int]),
{
    Timestamp::from_stored(&row[i])
}

} // verus!
