//! What the application reports of the blocks it handles.

use vstd::prelude::*;

verus! {

/// The height of a block in the chain.
pub type BlockHeight = u64;

/// A proposed block was looked at and accepted or rejected.
pub struct ProposalProcessed<'a> {
    pub is_accepted: bool,
    pub block_height: BlockHeight,
    pub block_hash: &'a str,
    pub num_txs: usize,
    pub proposer: &'a str,
}

/// A block was committed.
pub struct NewBlock {
    pub block_height: BlockHeight,
}

} // verus!
