//! Blocks of the ledger.

use crate::transaction::Transaction;
use vstd::prelude::*;

verus! {

#[derive(Clone, Debug, PartialEq, Eq)]
pub struct Block {
    pub index: u32,
    pub hash: [u8; 32],
    pub prev_hash: [u8; 32],
    pub tx: Vec<Transaction>,
}

impl Block {
    /// A block to try things with: index 1234, a hash of threes, a previous
    /// hash of fours, and no transactions.
    pub fn new() -> (block: Block)
        ensures
            block.index == 1234,
            block.hash@ == Seq::new(32, |i: int| 3u8),
            block.prev_hash@ == Seq::new(32, |i: int| 4u8),
            block.tx@.len() == 0,
    {
        let block = Block { index: 1234, hash: [3;32], prev_hash: [4;32], tx: Vec::new() };
        block
    }

    pub fn get_index(&self) -> (index: u32)
        ensures
            index == self.index,
    {
        self.index
    }

    /// The hash of the block, which is also the key under which the block is
    /// stored.
    pub fn get_hash(&self) -> (hash: &[u8; 32])
        ensures
            *hash == self.hash,
    {
        &self.hash
    }
}

} // verus!
