//! Transactions and their canonical text.

use crate::text::decimal;
use crate::text::push_decimal;
use vstd::prelude::*;
use vstd::string::*;

verus! {

/// A transfer of `amount` units from `sender` to `receiver`. It does not
/// change once built.
#[derive(Debug)]
pub struct Transaction {
    sender: String,
    receiver: String,
    amount: u32,
}

/// What a [`Transaction`] holds, as plain values.
pub struct TransactionView {
    pub sender: Seq<char>,
    pub receiver: Seq<char>,
    pub amount: u32,
}

impl View for Transaction {
    type V = TransactionView;

    closed spec fn view(&self) -> TransactionView {
        TransactionView { sender: self.sender@, receiver: self.receiver@, amount: self.amount }
    }
}

/// The views of a sequence of transactions, in order.
pub open spec fn views(txs: Seq<Transaction>) -> Seq<TransactionView> {
    txs.map_values(|t: Transaction| t@)
}

impl Clone for Transaction {
    fn clone(&self) -> (copy: Self)
        ensures
            copy == *self,
    {
        Transaction {
            sender: self.sender.clone(),
            receiver: self.receiver.clone(),
            amount: self.amount,
        }
    }
}

impl Transaction {
    /// A transaction of `amount` from `sender` to `receiver`.
    pub fn new(sender: String, receiver: String, amount: u32) -> (tx: Self)
        ensures
            tx@ == (TransactionView { sender: sender@, receiver: receiver@, amount }),
    {
        Transaction { sender, receiver, amount }
    }

    /// The address that pays.
    pub fn sender(&self) -> (s: &str)
        ensures
            s@ == self@.sender,
    {
        self.sender.as_str()
    }

    /// The address that is paid.
    pub fn receiver(&self) -> (s: &str)
        ensures
            s@ == self@.receiver,
    {
        self.receiver.as_str()
    }

    /// The amount that moves.
    pub fn amount(&self) -> (a: u32)
        ensures
            a == self@.amount,
    {
        self.amount
    }

    /// Appends the canonical text of this transaction to `out`.
    pub fn push_text(&self, out: &mut String)
        ensures
            final(out)@ == old(out)@ + transaction_text(self@),
    {
        let sender = quoted(self.sender.as_str());
        let receiver = quoted(self.receiver.as_str());
        push_record_text(out, sender.as_str(), receiver.as_str(), self.amount);
    }
}

/// The text of a transaction record whose two addresses are already quoted:
/// `Transaction { sender: S, receiver: R, amount: N }`, the amount in
/// decimal.
pub open spec fn record_text(sender: Seq<char>, receiver: Seq<char>, amount: u32) -> Seq<char> {
    "Transaction { sender: "@ + sender + ", receiver: "@ + receiver + ", amount: "@ + decimal(
        amount as nat,
    ) + " }"@
}

/// Appends [`record_text`] of two quoted addresses and an amount to `out`.
pub fn push_record_text(out: &mut String, sender: &str, receiver: &str, amount: u32)
    ensures
        final(out)@ == old(out)@ + record_text(sender@, receiver@, amount),
{
    out.append("Transaction { sender: ");
    out.append(sender);
    out.append(", receiver: ");
    out.append(receiver);
    out.append(", amount: ");
    push_decimal(out, amount as u64);
    out.append(" }");
    assert(out@ =~= old(out)@ + record_text(sender@, receiver@, amount));
}

/// A string as the standard library's `Debug` formatting writes it: between
/// double quotes, with its escape sequences.
pub uninterp spec fn str_debug(s: Seq<char>) -> Seq<char>;

/// Formats a string slice with `{:?}`, that is through std's
/// `impl Debug for str`. The contract claims only that the text returned
/// depends on the characters of `s` alone, and gives it the name
/// [`str_debug`].
#[verifier::external_body]
fn quoted(s: &str) -> (out: String)
    ensures
        out@ == str_debug(s@),
{
    format!("{:?}", s)
}

/// The canonical text of one transaction:
/// `Transaction { sender: "..", receiver: "..", amount: N }`, the two
/// addresses quoted as [`str_debug`] says and the amount in decimal.
pub open spec fn transaction_text(tx: TransactionView) -> Seq<char> {
    record_text(str_debug(tx.sender), str_debug(tx.receiver), tx.amount)
}

/// The texts of the transactions in order, with `", "` between neighbours.
pub open spec fn joined_text(txs: Seq<TransactionView>) -> Seq<char>
    decreases txs.len(),
{
    if txs.len() == 0 {
        Seq::empty()
    } else if txs.len() == 1 {
        transaction_text(txs[0])
    } else {
        joined_text(txs.drop_last()) + ", "@ + transaction_text(txs.last())
    }
}

/// The canonical text of a list of transactions: [`joined_text`] between
/// square brackets, so `[]` for the empty list.
pub open spec fn transactions_text(txs: Seq<TransactionView>) -> Seq<char> {
    "["@ + joined_text(txs) + "]"@
}

/// Appends the canonical text of a list of transactions to `out`.
pub fn push_transactions_text(out: &mut String, txs: &[Transaction])
    ensures
        final(out)@ == old(out)@ + transactions_text(views(txs@)),
{
    out.append("[");
    let ghost all = views(txs@);
    let mut i: usize = 0;
    while i < txs.len()
        invariant
            i <= txs.len(),
            all == views(txs@),
            out@ == old(out)@ + "["@ + joined_text(all.take(i as int)),
        decreases txs.len() - i,
    {
        if i > 0 {
            out.append(", ");
        }
        txs[i].push_text(out);
        proof {
            let before = all.take(i as int);
            let now = all.take(i + 1);
            assert(now.drop_last() =~= before);
            assert(now.last() == txs[i as int]@);
            assert(out@ =~= old(out)@ + "["@ + joined_text(now));
        }
        i = i + 1;
    }
    assert(all.take(i as int) =~= all);
    out.append("]");
    assert(out@ =~= old(out)@ + transactions_text(all));
}

} // verus!
