//! The model of the ledger as a function of the transactions accepted so
//! far, and what follows from it.

use crate::block::BlockView;
use crate::ledger::affordable;
use crate::ledger::balance_in;
use crate::ledger::credit_fits;
use crate::ledger::enrolled_both;
use crate::ledger::network;
use crate::ledger::transferred;
use crate::transaction::TransactionView;
use vstd::prelude::*;

verus! {

/// The transactions that the blocks hold, in chain order.
pub open spec fn recorded(blocks: Seq<BlockView>) -> Seq<TransactionView>
    decreases blocks.len(),
{
    if blocks.len() == 0 {
        Seq::empty()
    } else {
        recorded(blocks.drop_last()) + blocks.last().transactions
    }
}

/// The balances that result from applying the transactions in order to a
/// ledger without entries.
pub open spec fn replay(txs: Seq<TransactionView>) -> Map<Seq<char>, u32>
    decreases txs.len(),
{
    if txs.len() == 0 {
        Map::empty()
    } else {
        let last = txs.last();
        transferred(replay(txs.drop_last()), last.sender, last.receiver, last.amount)
    }
}

/// The addresses that got a balance entry from the transactions, in the
/// order in which they got it.
pub open spec fn roster(txs: Seq<TransactionView>) -> Seq<Seq<char>>
    decreases txs.len(),
{
    if txs.len() == 0 {
        Seq::empty()
    } else {
        enrolled_both(roster(txs.drop_last()), txs.last().sender, txs.last().receiver)
    }
}

/// Whether each transaction, at its turn, could be afforded by its sender
/// and left the receiver with a balance that fits in 32 bits.
pub open spec fn acceptable(txs: Seq<TransactionView>) -> bool
    decreases txs.len(),
{
    txs.len() == 0 || {
        let earlier = txs.drop_last();
        let last = txs.last();
        &&& acceptable(earlier)
        &&& affordable(replay(earlier), last.sender, last.amount)
        &&& credit_fits(replay(earlier), last.sender, last.receiver, last.amount)
    }
}

/// The sum of the amounts that the transactions pay to `address`.
pub open spec fn received(txs: Seq<TransactionView>, address: Seq<char>) -> nat
    decreases txs.len(),
{
    if txs.len() == 0 {
        0
    } else if txs.last().receiver == address {
        received(txs.drop_last(), address) + txs.last().amount as nat
    } else {
        received(txs.drop_last(), address)
    }
}

/// The sum of the amounts that the transactions take from `address`.
pub open spec fn sent(txs: Seq<TransactionView>, address: Seq<char>) -> nat
    decreases txs.len(),
{
    if txs.len() == 0 {
        0
    } else if txs.last().sender == address {
        sent(txs.drop_last(), address) + txs.last().amount as nat
    } else {
        sent(txs.drop_last(), address)
    }
}

/// After a run of acceptable transactions, the balance of every address but
/// the network is what it received less what it sent, and the balance of
/// the network is what it received.
pub proof fn lemma_replay_is_net(txs: Seq<TransactionView>, address: Seq<char>)
    requires
        acceptable(txs),
    ensures
        address != network() ==> balance_in(replay(txs), address) == received(txs, address) - sent(
            txs,
            address,
        ),
        address == network() ==> balance_in(replay(txs), address) == received(txs, address),
    decreases txs.len(),
{
    if txs.len() > 0 {
        lemma_replay_is_net(txs.drop_last(), address);
    }
}

/// A block more adds its transactions behind those recorded before.
pub proof fn lemma_recorded_push(blocks: Seq<BlockView>, block: BlockView)
    ensures
        recorded(blocks.push(block)) == recorded(blocks) + block.transactions,
{
    assert(blocks.push(block).drop_last() =~= blocks);
}

/// A transaction more is replayed on top of the balances before it.
pub proof fn lemma_replay_push(txs: Seq<TransactionView>, tx: TransactionView)
    ensures
        replay(txs.push(tx)) == transferred(replay(txs), tx.sender, tx.receiver, tx.amount),
        roster(txs.push(tx)) == enrolled_both(roster(txs), tx.sender, tx.receiver),
        acceptable(txs.push(tx)) <==> acceptable(txs) && affordable(replay(txs), tx.sender, tx.amount)
            && credit_fits(replay(txs), tx.sender, tx.receiver, tx.amount),
{
    assert(txs.push(tx).drop_last() =~= txs);
}

} // verus!
