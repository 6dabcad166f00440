//! Proof-of-work facts about a block of the chain.

use vstd::prelude::*;

verus! {

/// Timestamp and cumulative difficulty of a block that is already on the chain.
#[derive(Clone, Copy, Debug, PartialEq, Eq)]
pub struct BlockPOWInfo {
    pub timestamp: u64,
    pub cumulative_difficulty: u128,
}

} // verus!
