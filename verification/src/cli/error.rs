//! What can go wrong when a line is read as an instruction.

use vstd::prelude::*;
use vstd::string::StringExecFns;

verus! {

/// A line that could not be read, or that is no instruction.
#[derive(Debug, Clone, PartialEq, Eq)]
pub enum Error {
    /// Reading or writing failed.
    IoError(String),
    /// A word is no number.
    ParseFloatError(String),
    /// A flag has more than two dashes.
    UnvalidFlagError(String),
    NoCommandError,
}

/// An `Error` as a mathematical value.
pub enum ErrorView {
    IoError(Seq<char>),
    ParseFloatError(Seq<char>),
    UnvalidFlagError(Seq<char>),
    NoCommandError,
}

impl View for Error {
    type V = ErrorView;

    open spec fn view(&self) -> ErrorView {
        match self {
            Error::IoError(e) => ErrorView::IoError(e@),
            Error::ParseFloatError(e) => ErrorView::ParseFloatError(e@),
            Error::UnvalidFlagError(e) => ErrorView::UnvalidFlagError(e@),
            Error::NoCommandError => ErrorView::NoCommandError,
        }
    }
}

impl ErrorView {
    /// The text that tells the user of the failure.
    pub open spec fn message(self) -> Seq<char> {
        match self {
            ErrorView::IoError(e) => e,
            ErrorView::ParseFloatError(e) => e,
            ErrorView::UnvalidFlagError(e) => "Flag not recognized: "@ + e + "\n"@,
            ErrorView::NoCommandError => "\n"@,
        }
    }
}

impl Error {
    /// The text that tells the user of the failure.
    pub fn message(&self) -> (text: String)
        ensures
            text@ == self@.message(),
    {
        match self {
            Error::IoError(e) => e.clone(),
            Error::ParseFloatError(e) => e.clone(),
            Error::UnvalidFlagError(e) => {
                let mut text = String::from_str("Flag not recognized: ");
                text.append(e.as_str());
                text.append("\n");
                text
            },
            Error::NoCommandError => String::from_str("\n"),
        }
    }
}

} // verus!
