//! A wallet for a ledger of payments: keys and their addresses, transactions
//! that are built from amounts and addresses and signed, and the commands of
//! a command line that work on them.
//!
//! Every function of the library states what it returns or changes, and the
//! statement is proved. What other crates compute, digests, signatures and
//! Base58, enters the statements under a name of its own; `crypto` and `text`
//! hold those names and the calls that they stand for.

pub mod app;
pub mod block;
pub mod cli;
pub mod crypto;
pub mod db;
pub mod text;
pub mod transaction;
pub mod wallet;
