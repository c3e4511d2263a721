//! The values that travel between the library and the store.

use vstd::prelude::*;

verus! {

/// One value bound to a statement or read from a column.
///
/// There is no real number among them. A real number crosses the boundary as
/// a text, its decimal numeral, in both directions: the library never
/// computes with it, and a column of real affinity stores such a text as a
/// number.
#[derive(Clone, Debug, PartialEq, Eq)]
pub enum SqlValue {
    Null,
    Integer(i64),
    Text(String),
    Blob(Vec<u8>),
}

/// A `SqlValue` over sequences.
pub enum SqlDatum {
    Null,
    Integer(i64),
    Text(Seq<char>),
    Blob(Seq<u8>),
}

impl View for SqlValue {
    type V = SqlDatum;

    open spec fn view(&self) -> SqlDatum {
        match self {
            SqlValue::Null => SqlDatum::Null,
            SqlValue::Integer(n) => SqlDatum::Integer(*n),
            SqlValue::Text(text) => SqlDatum::Text(text@),
            SqlValue::Blob(bytes) => SqlDatum::Blob(bytes@),
        }
    }
}

impl DeepView for SqlValue {
    type V = SqlDatum;

    open spec fn deep_view(&self) -> SqlDatum {
        self@
    }
}

/// The datum for an integer that may be absent.
pub open spec fn integer_or_null(value: Option<i64>) -> SqlDatum {
    match value {
        Some(n) => SqlDatum::Integer(n),
        None => SqlDatum::Null,
    }
}

/// The datum for a text that may be absent.
pub open spec fn text_or_null(value: Option<Seq<char>>) -> SqlDatum {
    match value {
        Some(text) => SqlDatum::Text(text),
        None => SqlDatum::Null,
    }
}

/// The datum for a flag: 1 for true, 0 for false.
pub open spec fn flag(value: bool) -> SqlDatum {
    SqlDatum::Integer(if value { 1i64 } else { 0i64 })
}

/// The datum for a flag that may be absent.
pub open spec fn flag_or_null(value: Option<bool>) -> SqlDatum {
    match value {
        Some(b) => flag(b),
        None => SqlDatum::Null,
    }
}

impl SqlValue {
    pub fn text(value: &str) -> (bound: SqlValue)
        ensures
            bound@ == SqlDatum::Text(value@),
    {
        SqlValue::Text(value.to_owned())
    }

    pub fn optional_integer(value: Option<i64>) -> (bound: SqlValue)
        ensures
            bound@ == integer_or_null(value),
    {
        match value {
            Some(n) => SqlValue::Integer(n),
            None => SqlValue::Null,
        }
    }

    pub fn optional_text(value: &Option<String>) -> (bound: SqlValue)
        ensures
            bound@ == text_or_null(value.deep_view()),
    {
        match value {
            Some(text) => SqlValue::Text(text.clone()),
            None => SqlValue::Null,
        }
    }

    pub fn flag(value: bool) -> (bound: SqlValue)
        ensures
            bound@ == flag(value),
    {
        if value {
            SqlValue::Integer(1)
        } else {
            SqlValue::Integer(0)
        }
    }

    pub fn optional_flag(value: Option<bool>) -> (bound: SqlValue)
        ensures
            bound@ == flag_or_null(value),
    {
        match value {
            Some(b) => SqlValue::flag(b),
            None => SqlValue::Null,
        }
    }
}

} // verus!
