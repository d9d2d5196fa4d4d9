//! The pool of accepted transactions that wait for the next block.

use crate::transaction::views;
use crate::transaction::Transaction;
use crate::transaction::TransactionView;
use vstd::prelude::*;

verus! {

/// Pending transactions, in the order in which they were accepted.
pub struct TransactionPool {
    pending: Vec<Transaction>,
}

impl View for TransactionPool {
    type V = Seq<TransactionView>;

    closed spec fn view(&self) -> Seq<TransactionView> {
        views(self.pending@)
    }
}

impl TransactionPool {
    /// An empty pool.
    pub fn new() -> (pool: Self)
        ensures
            pool@ == Seq::<TransactionView>::empty(),
    {
        let pool = TransactionPool { pending: Vec::new() };
        assert(pool@ =~= Seq::<TransactionView>::empty());
        pool
    }

    /// Appends `transaction` behind those already waiting.
    pub fn add(&mut self, transaction: Transaction)
        ensures
            final(self)@ == old(self)@.push(transaction@),
    {
        self.pending.push(transaction);
        assert(self@ =~= old(self)@.push(transaction@));
    }

    /// A copy of the pending transactions, in order.
    pub fn snapshot(&self) -> (copy: Vec<Transaction>)
        ensures
            views(copy@) == self@,
    {
        let copy = self.pending.clone();
        assert(views(copy@) =~= self@);
        copy
    }

    /// Empties the pool.
    pub fn clear(&mut self)
        ensures
            final(self)@ == Seq::<TransactionView>::empty(),
    {
        self.pending.clear();
        assert(self@ =~= Seq::<TransactionView>::empty());
    }
}

} // verus!
