//! The four kinds of failure an operation can report.

use vstd::prelude::*;

verus! {

/// Why an operation on the store did not succeed.
#[derive(Clone, Copy, Debug, PartialEq, Eq, Structural)]
pub enum Error {
    /// A required field is missing.
    ValidationError,
    /// A timestamp text does not match `YYYY-MM-DD HH:MM:SS ±HHMM`.
    FormatError,
    /// No row carries the requested id.
    NotFound,
    /// The store rejected the statement.
    StoreError,
}

impl Error {
    /// A short lower-case name of the kind.
    pub fn describe(&self) -> (text: String)
        ensures
            text@ == self.description(),
    {
        match self {
            Error::ValidationError => "validation error".to_string(),
            Error::FormatError => "format error".to_string(),
            Error::NotFound => "not found".to_string(),
            Error::StoreError => "store error".to_string(),
        }
    }

    pub open spec fn description(&self) -> Seq<char> {
        match self {
            Error::ValidationError => "validation error"@,
            Error::FormatError => "format error"@,
            Error::NotFound => "not found"@,
            Error::StoreError => "store error"@,
        }
    }
}

/// What a lookup by id yields: the row that matched, or `NotFound` where
/// none did.
pub open spec fn found<T>(row: Option<T>) -> Result<T, Error> {
    match row {
        Some(r) => Ok(r),
        None => Err(Error::NotFound),
    }
}

/// Turns the outcome of a lookup by id into a result: no row is `NotFound`.
pub fn row_or_not_found<T>(row: Option<T>) -> (r: Result<T, Error>)
    ensures
        r == found(row),
{
    match row {
        Some(r) => Ok(r),
        None => Err(Error::NotFound),
    }
}

} // verus!
