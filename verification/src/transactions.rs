//! Transactions as the block verifier sees them.

use vstd::prelude::*;

verus! {

/// What verification reads of a transaction that the pool resolved.
#[derive(Clone, Copy, Debug, PartialEq, Eq)]
pub struct TransactionVerificationData {
    pub tx_hash: [u8; 32],
    pub tx_weight: usize,
    pub fee: u64,
}

/// The sum of the weights of `txs`.
pub open spec fn total_weight(txs: Seq<TransactionVerificationData>) -> nat
    decreases txs.len(),
{
    if txs.len() == 0 {
        0
    } else {
        total_weight(txs.drop_last()) + txs.last().tx_weight as nat
    }
}

/// The sum of the fees of `txs`.
pub open spec fn total_fees(txs: Seq<TransactionVerificationData>) -> nat
    decreases txs.len(),
{
    if txs.len() == 0 {
        0
    } else {
        total_fees(txs.drop_last()) + txs.last().fee as nat
    }
}

/// The weight of a block: its miner transaction and every included transaction.
pub open spec fn block_weight(miner_tx_weight: usize, txs: Seq<TransactionVerificationData>) -> nat {
    miner_tx_weight as nat + total_weight(txs)
}

/// The weight of a prefix is at most the weight of the whole.
pub proof fn lemma_total_weight_prefix(txs: Seq<TransactionVerificationData>, n: int)
    requires
        0 <= n <= txs.len(),
    ensures
        total_weight(txs.take(n)) <= total_weight(txs),
    decreases txs.len() - n,
{
    if n == txs.len() {
        assert(txs.take(n) =~= txs);
    } else {
        lemma_total_weight_prefix(txs, n + 1);
        assert(txs.take(n + 1).drop_last() =~= txs.take(n));
    }
}

/// The fees of a prefix are at most the fees of the whole.
pub proof fn lemma_total_fees_prefix(txs: Seq<TransactionVerificationData>, n: int)
    requires
        0 <= n <= txs.len(),
    ensures
        total_fees(txs.take(n)) <= total_fees(txs),
    decreases txs.len() - n,
{
    if n == txs.len() {
        assert(txs.take(n) =~= txs);
    } else {
        lemma_total_fees_prefix(txs, n + 1);
        assert(txs.take(n + 1).drop_last() =~= txs.take(n));
    }
}

/// Adds up the weight of a block. `None` when the sum does not fit in `usize`.
pub fn sum_block_weight(miner_tx_weight: usize, txs: &Vec<TransactionVerificationData>) -> (sum: Option<usize>)
    ensures
        sum is Some <==> block_weight(miner_tx_weight, txs@) <= usize::MAX,
        sum is Some ==> sum->0 == block_weight(miner_tx_weight, txs@),
{
    let mut acc: usize = miner_tx_weight;
    let mut i: usize = 0;
    while i < txs.len()
        invariant
            i <= txs.len(),
            acc == block_weight(miner_tx_weight, txs@.take(i as int)),
        decreases txs.len() - i,
    {
        proof {
            assert(txs@.take(i + 1).drop_last() =~= txs@.take(i as int));
            lemma_total_weight_prefix(txs@, i + 1);
        }
        match acc.checked_add(txs[i].tx_weight) {
            Some(next) => {
                acc = next;
            },
            None => {
                return None;
            },
        }
        i = i + 1;
    }
    proof {
        assert(txs@.take(i as int) =~= txs@);
    }
    Some(acc)
}

/// Adds up the fees of the transactions. `None` when the sum does not fit in
/// `u64`.
pub fn sum_fees(txs: &Vec<TransactionVerificationData>) -> (sum: Option<u64>)
    ensures
        sum is Some <==> total_fees(txs@) <= u64::MAX,
        sum is Some ==> sum->0 == total_fees(txs@),
{
    let mut acc: u64 = 0;
    let mut i: usize = 0;
    while i < txs.len()
        invariant
            i <= txs.len(),
            acc == total_fees(txs@.take(i as int)),
        decreases txs.len() - i,
    {
        proof {
            assert(txs@.take(i + 1).drop_last() =~= txs@.take(i as int));
            lemma_total_fees_prefix(txs@, i + 1);
        }
        match acc.checked_add(txs[i].fee) {
            Some(next) => {
                acc = next;
            },
            None => {
                return None;
            },
        }
        i = i + 1;
    }
    proof {
        assert(txs@.take(i as int) =~= txs@);
    }
    Some(acc)
}

} // verus!
