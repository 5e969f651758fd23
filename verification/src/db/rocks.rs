//! What a column of the store is: a name, and the type of its records.

use vstd::prelude::*;
use vstd::string::StringExecFns;

verus! {

/// A failed read or write of the store.
#[derive(Debug, Clone, PartialEq, Eq)]
pub enum Error {
    /// The store itself failed; its description.
    DbError(String),
    /// A record could not be written as bytes, or bytes are no record; the
    /// description of the codec.
    BincodeError(String),
}

impl Error {
    /// The line that tells the user of the failure.
    pub open spec fn message_text(&self) -> Seq<char> {
        match self {
            Error::DbError(e) => e@,
            Error::BincodeError(e) => e@,
        }
    }

    /// The line that tells the user of the failure.
    pub fn message(&self) -> (text: String)
        ensures
            text@ == self.message_text(),
    {
        match self {
            Error::DbError(e) => e.clone(),
            Error::BincodeError(e) => e.clone(),
        }
    }
}

pub trait ColumnName {
    const NAME: &'static str;
}

pub trait ColumnType {
    /// The type of the records of the column.
    type Type;
}

} // verus!
