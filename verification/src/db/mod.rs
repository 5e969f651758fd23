//! The store of the ledger: which columns it has, and what each holds.

pub mod columns;
pub mod rocks;

use crate::block::Block;
use crate::db::rocks::{ColumnName, ColumnType};
use crate::transaction::TxOut;
use vstd::prelude::*;

verus! {

impl ColumnName for columns::Block {
    const NAME: &'static str = columns::BLOCK_CF;
}

impl ColumnType for columns::Block {
    type Type = Block;
}

impl ColumnName for columns::Utxo {
    const NAME: &'static str = columns::UTXO_CF;
}

impl ColumnType for columns::Utxo {
    type Type = TxOut;
}

/// The names of the columns that the store is opened with, and that are made
/// where they are missing: the blocks, then the unspent outputs.
pub fn column_families() -> (names: Vec<&'static str>)
    ensures
        names@.len() == 2,
        names@[0]@ == columns::BLOCK_CF@,
        names@[1]@ == columns::UTXO_CF@,
{
    let mut names: Vec<&'static str> = Vec::new();
    names.push(<columns::Block as ColumnName>::NAME);
    names.push(<columns::Utxo as ColumnName>::NAME);
    names
}

} // verus!
