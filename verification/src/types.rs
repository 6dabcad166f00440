//! Plain descriptions of the chain data that the protocols read.

use vstd::prelude::*;

verus! {

/// A versioned consensus ruleset, named by its version number.
#[derive(Clone, Copy, Debug, PartialEq, Eq)]
pub struct HardFork {
    pub version: u8,
}

/// The header of a block.
#[derive(Clone, Copy, Debug, PartialEq, Eq)]
pub struct BlockHeader {
    pub major_version: u8,
    pub minor_version: u8,
    pub timestamp: u64,
    pub previous: [u8; 32],
    pub nonce: u32,
}

/// A candidate block: the fields parsed from its bytes that verification reads.
#[derive(Debug, PartialEq, Eq)]
pub struct Block {
    pub header: BlockHeader,
    /// Weight of the miner transaction.
    pub miner_tx_weight: usize,
    /// Hashes of the transactions that the block includes, in block order.
    pub txs: Vec<[u8; 32]>,
    /// The hash that identifies the block.
    pub block_hash: [u8; 32],
}

/// Names a block of the chain by its hash or by its height.
#[derive(Clone, Copy, Debug, PartialEq, Eq)]
pub enum BlockID {
    Hash([u8; 32]),
    Height(u64),
}

} // verus!
