//! The reports that a front end shows: the chain block by block, and the
//! balances account by account.

use crate::block::block_views;
use crate::block::Block;
use crate::block::BlockView;
use crate::ledger::entry_views;
use crate::text::decimal;
use crate::text::push_decimal;
use crate::transaction::views;
use crate::transaction::Transaction;
use crate::transaction::TransactionView;
use vstd::prelude::*;
use vstd::string::*;

verus! {

/// The line that shows one transaction of a block.
pub open spec fn transaction_line(tx: TransactionView) -> Seq<char> {
    "    "@ + tx.sender + " -> "@ + tx.receiver + " : "@ + decimal(tx.amount as nat) + " coins\n"@
}

/// The lines of the transactions, in order.
pub open spec fn transaction_lines(txs: Seq<TransactionView>) -> Seq<char>
    decreases txs.len(),
{
    if txs.len() == 0 {
        Seq::empty()
    } else {
        transaction_lines(txs.drop_last()) + transaction_line(txs.last())
    }
}

/// The lines that show one block, with an empty line behind them.
pub open spec fn block_report(b: BlockView) -> Seq<char> {
    "Block #"@ + decimal(b.index as nat) + "\n  Previous Hash: "@ + b.previous_hash
        + "\n  Timestamp: "@ + decimal(b.timestamp as nat) + "\n  Transactions:\n"@
        + transaction_lines(b.transactions) + "  Proof: "@ + decimal(b.proof as nat)
        + "\n  Hash: "@ + b.hash + "\n\n"@
}

/// The reports of the blocks, in order.
pub open spec fn block_reports(blocks: Seq<BlockView>) -> Seq<char>
    decreases blocks.len(),
{
    if blocks.len() == 0 {
        Seq::empty()
    } else {
        block_reports(blocks.drop_last()) + block_report(blocks.last())
    }
}

/// The report of a chain: a title line, then the report of each block.
pub open spec fn chain_report(blocks: Seq<BlockView>) -> Seq<char> {
    "Blockchain Ledger:\n"@ + block_reports(blocks)
}

/// The line that shows one balance.
pub open spec fn balance_line(entry: (Seq<char>, u32)) -> Seq<char> {
    entry.0 + ": "@ + decimal(entry.1 as nat) + " coins\n"@
}

/// The lines of the entries, in order.
pub open spec fn balance_lines(entries: Seq<(Seq<char>, u32)>) -> Seq<char>
    decreases entries.len(),
{
    if entries.len() == 0 {
        Seq::empty()
    } else {
        balance_lines(entries.drop_last()) + balance_line(entries.last())
    }
}

/// The report of the balances: an empty line, a title line, then one line
/// for each entry.
pub open spec fn balances_report(entries: Seq<(Seq<char>, u32)>) -> Seq<char> {
    "\nCurrent Account Balances:\n"@ + balance_lines(entries)
}

/// Appends the report of `block` to `out`.
pub fn push_block_report(out: &mut String, block: &Block)
    ensures
        final(out)@ == old(out)@ + block_report(block@),
{
    out.append("Block #");
    push_decimal(out, block.index() as u64);
    out.append("\n  Previous Hash: ");
    out.append(block.previous_hash());
    out.append("\n  Timestamp: ");
    push_decimal(out, block.timestamp());
    out.append("\n  Transactions:\n");
    let ghost head = out@;
    let txs = block.transactions();
    let mut i: usize = 0;
    while i < txs.len()
        invariant
            i <= txs.len(),
            out@ == head + transaction_lines(views(txs@).take(i as int)),
        decreases txs.len() - i,
    {
        let tx = &txs[i];
        let ghost line_start = out@;
        out.append("    ");
        out.append(tx.sender());
        out.append(" -> ");
        out.append(tx.receiver());
        out.append(" : ");
        push_decimal(out, tx.amount() as u64);
        out.append(" coins\n");
        proof {
            assert(out@ =~= line_start + transaction_line(tx@));
            assert(views(txs@).take(i + 1).drop_last() =~= views(txs@).take(i as int));
            assert(views(txs@).take(i + 1).last() == tx@);
        }
        i = i + 1;
    }
    assert(views(txs@).take(i as int) =~= views(txs@));
    out.append("  Proof: ");
    push_decimal(out, block.work_proof() as u64);
    out.append("\n  Hash: ");
    out.append(block.hash());
    out.append("\n\n");
    assert(out@ =~= old(out)@ + block_report(block@));
}

/// The report of a chain of blocks.
pub fn render_chain(blocks: &[Block]) -> (text: String)
    ensures
        text@ == chain_report(block_views(blocks@)),
{
    let mut text = String::new();
    text.append("Blockchain Ledger:\n");
    let ghost all = block_views(blocks@);
    let mut i: usize = 0;
    while i < blocks.len()
        invariant
            i <= blocks.len(),
            all == block_views(blocks@),
            text@ == "Blockchain Ledger:\n"@ + block_reports(all.take(i as int)),
        decreases blocks.len() - i,
    {
        push_block_report(&mut text, &blocks[i]);
        proof {
            assert(all.take(i + 1).drop_last() =~= all.take(i as int));
            assert(all.take(i + 1).last() == blocks[i as int]@);
        }
        i = i + 1;
    }
    assert(all.take(i as int) =~= all);
    text
}

/// The report of a list of balance entries.
pub fn render_balances(entries: &[(String, u32)]) -> (text: String)
    ensures
        text@ == balances_report(entry_views(entries@)),
{
    let mut text = String::new();
    text.append("\nCurrent Account Balances:\n");
    let ghost all = entry_views(entries@);
    let mut i: usize = 0;
    while i < entries.len()
        invariant
            i <= entries.len(),
            all == entry_views(entries@),
            text@ == "\nCurrent Account Balances:\n"@ + balance_lines(all.take(i as int)),
        decreases entries.len() - i,
    {
        let ghost line_start = text@;
        text.append(entries[i].0.as_str());
        text.append(": ");
        push_decimal(&mut text, entries[i].1 as u64);
        text.append(" coins\n");
        proof {
            assert(text@ =~= line_start + balance_line(all[i as int]));
            assert(all.take(i + 1).drop_last() =~= all.take(i as int));
            assert(all.take(i + 1).last() == all[i as int]);
        }
        i = i + 1;
    }
    assert(all.take(i as int) =~= all);
    text
}

} // verus!
