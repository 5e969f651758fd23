//! What can go wrong in a wallet command.

use crate::text::{decimal, decimal_text};
use vstd::prelude::*;
use vstd::string::StringExecFns;

verus! {

/// A failed wallet command. Each description inside is the text of the
/// failure as it was reported where it arose.
#[derive(Debug, Clone, PartialEq, Eq)]
pub enum Error {
    /// Reading or writing failed.
    IoError(String),
    /// An amount is no number.
    ParseFloatError(String),
    /// An index is no number.
    ParseUsizeError(String),
    /// Arguments are missing or do not come in pairs.
    NotEnoughArgsError(String),
    /// An address is no Base58 text.
    Base58Error(String),
    /// An address does not have the length of one.
    UnvalidAddressError(String),
    /// The checksum of an address does not belong to the rest of it.
    UnvalidCheckSumError,
    /// A command does not know the flag.
    UnrecognizedFlag(String),
    /// A command, and the number of arguments that is the most it takes.
    UnvalidArgsCountError(String, usize),
}

/// An `Error` as a mathematical value.
pub enum ErrorView {
    IoError(Seq<char>),
    ParseFloatError(Seq<char>),
    ParseUsizeError(Seq<char>),
    NotEnoughArgsError(Seq<char>),
    Base58Error(Seq<char>),
    UnvalidAddressError(Seq<char>),
    UnvalidCheckSumError,
    UnrecognizedFlag(Seq<char>),
    UnvalidArgsCountError(Seq<char>, usize),
}

impl View for Error {
    type V = ErrorView;

    open spec fn view(&self) -> ErrorView {
        match self {
            Error::IoError(e) => ErrorView::IoError(e@),
            Error::ParseFloatError(e) => ErrorView::ParseFloatError(e@),
            Error::ParseUsizeError(e) => ErrorView::ParseUsizeError(e@),
            Error::NotEnoughArgsError(e) => ErrorView::NotEnoughArgsError(e@),
            Error::Base58Error(e) => ErrorView::Base58Error(e@),
            Error::UnvalidAddressError(e) => ErrorView::UnvalidAddressError(e@),
            Error::UnvalidCheckSumError => ErrorView::UnvalidCheckSumError,
            Error::UnrecognizedFlag(flag) => ErrorView::UnrecognizedFlag(flag@),
            Error::UnvalidArgsCountError(command, count) => ErrorView::UnvalidArgsCountError(
                command@,
                *count,
            ),
        }
    }
}

impl ErrorView {
    /// The line that tells the user of the failure.
    pub open spec fn message(self) -> Seq<char> {
        match self {
            ErrorView::IoError(e) => e,
            ErrorView::ParseFloatError(e) => "Amount entered is not well formated: "@ + e
                + "\nUse -h for more information"@,
            ErrorView::ParseUsizeError(e) => "Parse error: "@ + e,
            ErrorView::NotEnoughArgsError(e) => "Not enough arguments: "@ + e
                + "\nUse -h for more information"@,
            ErrorView::Base58Error(e) => "Cannot convert address to public key hash: "@ + e,
            ErrorView::UnvalidAddressError(e) => "Unvalid address: "@ + e,
            ErrorView::UnvalidCheckSumError => "Unvalid checksum"@,
            ErrorView::UnrecognizedFlag(flag) => "Unrecognized flag: "@ + flag,
            ErrorView::UnvalidArgsCountError(command, count) => command + " only takes "@
                + decimal_text(count as nat) + " arguments"@,
        }
    }
}

impl Error {
    /// The line that tells the user of the failure.
    pub fn message(&self) -> (text: String)
        ensures
            text@ == self@.message(),
    {
        match self {
            Error::IoError(e) => e.clone(),
            Error::ParseFloatError(e) => {
                let mut text = String::from_str("Amount entered is not well formated: ");
                text.append(e.as_str());
                text.append("\nUse -h for more information");
                text
            },
            Error::ParseUsizeError(e) => {
                let mut text = String::from_str("Parse error: ");
                text.append(e.as_str());
                text
            },
            Error::NotEnoughArgsError(e) => {
                let mut text = String::from_str("Not enough arguments: ");
                text.append(e.as_str());
                text.append("\nUse -h for more information");
                text
            },
            Error::Base58Error(e) => {
                let mut text = String::from_str("Cannot convert address to public key hash: ");
                text.append(e.as_str());
                text
            },
            Error::UnvalidAddressError(e) => {
                let mut text = String::from_str("Unvalid address: ");
                text.append(e.as_str());
                text
            },
            Error::UnvalidCheckSumError => String::from_str("Unvalid checksum"),
            Error::UnrecognizedFlag(flag) => {
                let mut text = String::from_str("Unrecognized flag: ");
                text.append(flag.as_str());
                text
            },
            Error::UnvalidArgsCountError(command, count) => {
                let mut text = command.clone();
                text.append(" only takes ");
                let number = decimal(*count);
                text.append(number.as_str());
                text.append(" arguments");
                text
            },
        }
    }
}

} // verus!
