//! The ways an operation on the store can fail.

use vstd::prelude::*;
use vstd::string::StringExecFns;
use crate::dates::digit;

verus! {

/// Why an operation on the store gave no value.
#[derive(Clone, Debug, PartialEq, Eq)]
pub enum DbError {
    /// The handle was used before a connection was opened on it.
    NotInitialized,
    /// A lookup that must match a row matched none.
    NotFound,
    /// The user named at login was not found.
    UnknownUser,
    /// An update was asked for a record that carries no identifier.
    MissingId,
    /// A stored column holds a value of the wrong kind, or a date that does not parse.
    Malformed { column: usize },
    /// Every code tried for a new child was already taken.
    CodesExhausted,
    /// The store refused the statement; the text is the store's own.
    Store(String),
}

/// A `DbError` with its text as a sequence of characters.
pub enum Failure {
    NotInitialized,
    NotFound,
    UnknownUser,
    MissingId,
    Malformed { column: usize },
    CodesExhausted,
    Store(Seq<char>),
}

impl View for DbError {
    type V = Failure;

    open spec fn view(&self) -> Failure {
        match self {
            DbError::NotInitialized => Failure::NotInitialized,
            DbError::NotFound => Failure::NotFound,
            DbError::UnknownUser => Failure::UnknownUser,
            DbError::MissingId => Failure::MissingId,
            DbError::Malformed { column } => Failure::Malformed { column: *column },
            DbError::CodesExhausted => Failure::CodesExhausted,
            DbError::Store(text) => Failure::Store(text@),
        }
    }
}

impl DeepView for DbError {
    type V = Failure;

    open spec fn deep_view(&self) -> Failure {
        self@
    }
}

/// A number in decimal, without leading zeros.
pub open spec fn decimal_digits(n: nat) -> Seq<char>
    decreases n,
{
    if n < 10 {
        seq![digit(n as int)]
    } else {
        decimal_digits(n / 10).push(digit((n % 10) as int))
    }
}

/// What the text for a malformed column starts with; the column's number follows.
pub const MALFORMED: &'static str = "Stored value is malformed in column ";

/// The text shown to a caller for each failure.
pub open spec fn failure_text(failure: Failure) -> Seq<char> {
    match failure {
        Failure::NotInitialized => "Database not initialized"@,
        Failure::NotFound => "Query returned no rows"@,
        Failure::UnknownUser => "User not found"@,
        Failure::MissingId => "Record has no identifier"@,
        Failure::Malformed { column } => MALFORMED@ + decimal_digits(column as nat),
        Failure::CodesExhausted => "No unused code could be generated"@,
        Failure::Store(text) => text,
    }
}

/// A result with its value and its failure taken by their views.
pub open spec fn outcome_view<T: DeepView>(got: Result<T, DbError>) -> Result<T::V, Failure> {
    match got {
        Ok(value) => Ok(value.deep_view()),
        Err(error) => Err(error@),
    }
}

/// Whether an exec result and a result over views say the same thing.
pub open spec fn same_outcome<T: DeepView>(got: Result<T, DbError>, expected: Result<T::V, Failure>) -> bool {
    match got {
        Ok(value) => expected == Ok::<T::V, Failure>(value.deep_view()),
        Err(error) => expected == Err::<T::V, Failure>(error@),
    }
}

fn digit_text(n: usize) -> (text: &'static str)
    requires
        n < 10,
    ensures
        text@ == seq![digit(n as int)],
{
    proof {
        reveal_strlit("0");
        reveal_strlit("1");
        reveal_strlit("2");
        reveal_strlit("3");
        reveal_strlit("4");
        reveal_strlit("5");
        reveal_strlit("6");
        reveal_strlit("7");
        reveal_strlit("8");
        reveal_strlit("9");
    }
    let text = if n == 0 {
        "0"
    } else if n == 1 {
        "1"
    } else if n == 2 {
        "2"
    } else if n == 3 {
        "3"
    } else if n == 4 {
        "4"
    } else if n == 5 {
        "5"
    } else if n == 6 {
        "6"
    } else if n == 7 {
        "7"
    } else if n == 8 {
        "8"
    } else {
        "9"
    };
    assert(text@ =~= seq![digit(n as int)]);
    text
}

/// A number written in decimal.
pub fn decimal_text(n: usize) -> (text: String)
    ensures
        text@ == decimal_digits(n as nat),
    decreases n,
{
    if n < 10 {
        String::from_str(digit_text(n))
    } else {
        let mut text = decimal_text(n / 10);
        text.append(digit_text(n % 10));
        text
    }
}

/// Whether a result told in text says what `inner` says: the same value, or
/// the text of the same failure.
pub open spec fn reported<T: DeepView>(got: Result<T, String>, inner: Result<T::V, Failure>) -> bool {
    match got {
        Ok(value) => inner == Ok::<T::V, Failure>(value.deep_view()),
        Err(text) => inner is Err && text@ == failure_text(inner->Err_0),
    }
}

/// Tells a failure in text.
pub fn report<T: DeepView>(inner: Result<T, DbError>) -> (got: Result<T, String>)
    ensures
        reported(got, outcome_view(inner)),
{
    match inner {
        Ok(value) => Ok(value),
        Err(failure) => Err(failure.message()),
    }
}

impl DbError {
    /// The text shown to a caller for this failure.
    pub fn message(&self) -> (text: String)
        ensures
            text@ == failure_text(self@),
    {
        match self {
            DbError::NotInitialized => String::from_str("Database not initialized"),
            DbError::NotFound => String::from_str("Query returned no rows"),
            DbError::UnknownUser => String::from_str("User not found"),
            DbError::MissingId => String::from_str("Record has no identifier"),
            DbError::Malformed { column } => {
                let mut text = String::from_str(MALFORMED);
                let number = decimal_text(*column);
                text.append(number.as_str());
                text
            },
            DbError::CodesExhausted => String::from_str("No unused code could be generated"),
            DbError::Store(text) => text.clone(),
        }
    }
}

} // verus!
