//! The columns of the store.

use vstd::prelude::*;

verus! {

pub const BLOCK_CF: &'static str = "block";

/// The column of the blocks, each under its hash.
pub struct Block;

pub const UTXO_CF: &'static str = "utxo";

/// The column of the outputs that are not spent.
pub struct Utxo;

} // verus!
