//! The ledger engine: a chain of blocks, the pool of pending transactions
//! and the balances, with submission and mining as its two operations.

use crate::block::block_hash;
use crate::block::block_views;
use crate::block::calculate_hash;
use crate::block::Block;
use crate::block::BlockView;
use crate::error::InsufficientBalance;
use crate::history::acceptable;
use crate::history::lemma_recorded_push;
use crate::history::lemma_replay_is_net;
use crate::history::lemma_replay_push;
use crate::history::received;
use crate::history::recorded;
use crate::history::replay;
use crate::history::roster;
use crate::history::sent;
use crate::ledger::affordable;
use crate::ledger::balance_in;
use crate::ledger::credit_fits;
use crate::ledger::entry_views;
use crate::ledger::network;
use crate::ledger::transferred;
use crate::ledger::Ledger;
use crate::ledger::NETWORK;
use crate::pool::TransactionPool;
use crate::pow::in_search_range;
use crate::pow::proof_of_work;
use crate::pow::solves;
use crate::pow::valid_proof;
use crate::report::balances_report;
use crate::report::chain_report;
use crate::report::render_balances;
use crate::report::render_chain;
use crate::text::str_eq;
use crate::transaction::views;
use crate::transaction::Transaction;
use crate::transaction::TransactionView;
use vstd::prelude::*;
use vstd::string::*;

verus! {

/// What the network pays the miner of a block.
pub const MINING_REWARD: u32 = 10;

/// The proof that the genesis block carries.
pub const GENESIS_PROOF: u32 = 100;

/// Whether `b` is a genesis block: index 0, no transactions, the fixed
/// proof, and the text `0` both as its hash and as its previous hash. Its
/// timestamp is free.
pub open spec fn is_genesis(b: BlockView) -> bool {
    &&& b.index == 0
    &&& b.previous_hash == "0"@
    &&& b.transactions == Seq::<TransactionView>::empty()
    &&& b.proof == GENESIS_PROOF
    &&& b.hash == "0"@
}

/// Whether `next` may stand directly behind `prev`: it names the hash of
/// `prev`, its proof solves the puzzle that the proof of `prev` poses, and
/// its hash is the digest of its own content.
pub open spec fn extends(prev: BlockView, next: BlockView) -> bool {
    &&& next.previous_hash == prev.hash
    &&& solves(prev.proof, next.proof)
    &&& next.hash == block_hash(next)
}

/// Whether `blocks` is a chain: a genesis block first, every block at the
/// index of its position, and every later block extending the one before.
pub open spec fn is_chain(blocks: Seq<BlockView>) -> bool {
    &&& blocks.len() >= 1
    &&& is_genesis(blocks[0])
    &&& forall|i: int| 0 <= i < blocks.len() ==> (#[trigger] blocks[i]).index == i
    &&& forall|i: int| 1 <= i < blocks.len() ==> extends(blocks[i - 1], #[trigger] blocks[i])
}

/// The transaction that rewards `miner`.
pub open spec fn reward(miner: Seq<char>) -> TransactionView {
    TransactionView { sender: network(), receiver: miner, amount: MINING_REWARD }
}

/// The block that mining appends to `blocks` when `pending` waits in the
/// pool: the pending transactions and the miner's reward behind them, sealed
/// with `proof` at `timestamp`.
pub open spec fn mined_block(
    blocks: Seq<BlockView>,
    pending: Seq<TransactionView>,
    miner: Seq<char>,
    proof: u32,
    timestamp: u64,
) -> BlockView {
    let content = BlockView {
        index: blocks.len() as u32,
        previous_hash: blocks.last().hash,
        timestamp,
        transactions: pending.push(reward(miner)),
        proof,
        hash: Seq::empty(),
    };
    BlockView { hash: block_hash(content), ..content }
}

/// The ledger engine.
pub struct Blockchain {
    chain: Vec<Block>,
    current_transactions: TransactionPool,
    balances: Ledger,
}

/// Reads the system clock with `std::time::SystemTime::elapsed` on
/// `UNIX_EPOCH` and gives the whole seconds, or `None` where the clock
/// stands before 1970. Nothing is claimed of the number.
#[verifier::external_body]
fn seconds_since_epoch() -> Option<u64> {
    match std::time::UNIX_EPOCH.elapsed() {
        Ok(elapsed) => Some(elapsed.as_secs()),
        Err(_) => None,
    }
}

impl Blockchain {
    /// The blocks of the chain, first to last.
    pub closed spec fn blocks(&self) -> Seq<BlockView> {
        block_views(self.chain@)
    }

    /// The transactions in the pool, in the order of their acceptance.
    pub closed spec fn pending(&self) -> Seq<TransactionView> {
        self.current_transactions@
    }

    /// The balance entries.
    pub closed spec fn ledger(&self) -> Map<Seq<char>, u32> {
        self.balances@
    }

    /// The addresses that have a balance entry, in the order in which they
    /// got it.
    pub closed spec fn accounts(&self) -> Seq<Seq<char>> {
        self.balances.accounts()
    }

    /// Every balance entry as address and balance, in the order of
    /// [`Self::accounts`].
    pub open spec fn listing(&self) -> Seq<(Seq<char>, u32)> {
        Seq::new(
            self.accounts().len(),
            |i: int| (self.accounts()[i], self.balance(self.accounts()[i]) as u32),
        )
    }

    /// The balance of `address`.
    pub open spec fn balance(&self, address: Seq<char>) -> nat {
        balance_in(self.ledger(), address)
    }

    /// Whether the chain can take one more block: the index of that block,
    /// which is the number of blocks so far, fits in 32 bits.
    pub open spec fn has_room(&self) -> bool {
        self.blocks().len() <= u32::MAX
    }

    /// Every transaction accepted so far: those in the blocks, then those
    /// in the pool.
    pub open spec fn history(&self) -> Seq<TransactionView> {
        recorded(self.blocks()) + self.pending()
    }

    /// The engine's invariant: the blocks form a chain, and the balances
    /// are those that the accepted transactions produce.
    pub closed spec fn wf(&self) -> bool {
        &&& self.balances.wf()
        &&& is_chain(self.blocks())
        &&& acceptable(self.history())
        &&& self.ledger() == replay(self.history())
        &&& self.accounts() == roster(self.history())
    }

    /// The seconds since the start of 1970 on the system clock, or 0 where
    /// the clock stands before that.
    pub fn current_timestamp() -> u64 {
        Self::timestamp_of(seconds_since_epoch())
    }

    /// The timestamp for a reading of the clock: the seconds that were
    /// read, or 0 where the clock stood before the start of 1970.
    pub fn timestamp_of(reading: Option<u64>) -> (timestamp: u64)
        ensures
            timestamp == match reading {
                Some(seconds) => seconds,
                None => 0,
            },
    {
        match reading {
            Some(seconds) => seconds,
            None => 0,
        }
    }

    /// A fresh engine: the genesis block alone, stamped with the reading of
    /// the system clock, no pending transaction, no balance.
    pub fn new() -> (blockchain: Blockchain)
        ensures
            blockchain.wf(),
            blockchain.blocks().len() == 1,
            is_genesis(blockchain.blocks()[0]),
            blockchain.pending() == Seq::<TransactionView>::empty(),
            blockchain.ledger() == Map::<Seq<char>, u32>::empty(),
            blockchain.accounts() == Seq::<Seq<char>>::empty(),
    {
        Self::new_at(Self::current_timestamp())
    }

    /// A fresh engine whose genesis block carries `timestamp`.
    pub fn new_at(timestamp: u64) -> (blockchain: Blockchain)
        ensures
            blockchain.wf(),
            blockchain.blocks().len() == 1,
            is_genesis(blockchain.blocks()[0]),
            blockchain.blocks()[0].timestamp == timestamp,
            blockchain.pending() == Seq::<TransactionView>::empty(),
            blockchain.ledger() == Map::<Seq<char>, u32>::empty(),
            blockchain.accounts() == Seq::<Seq<char>>::empty(),
    {
        let mut blockchain = Blockchain {
            chain: Vec::new(),
            current_transactions: TransactionPool::new(),
            balances: Ledger::new(),
        };
        blockchain.create_genesis_block(timestamp);
        blockchain
    }

    /// Puts the genesis block, stamped with `timestamp`, on an empty chain.
    fn create_genesis_block(&mut self, timestamp: u64)
        requires
            old(self).chain@.len() == 0,
            old(self).balances.wf(),
            old(self).pending() == Seq::<TransactionView>::empty(),
            old(self).ledger() == Map::<Seq<char>, u32>::empty(),
            old(self).accounts() == Seq::<Seq<char>>::empty(),
        ensures
            final(self).wf(),
            final(self).blocks().len() == 1,
            is_genesis(final(self).blocks()[0]),
            final(self).blocks()[0].timestamp == timestamp,
            final(self).pending() == old(self).pending(),
            final(self).ledger() == old(self).ledger(),
            final(self).accounts() == old(self).accounts(),
    {
        let genesis_block = Block::new(
            0,
            "0".to_owned(),
            timestamp,
            Vec::new(),
            GENESIS_PROOF,
            "0".to_owned(),
        );
        self.chain.push(genesis_block);
        proof {
            let blocks = self.blocks();
            assert(blocks[0] == genesis_block@);
            assert(genesis_block@.transactions =~= Seq::<TransactionView>::empty());
            assert(blocks.drop_last() =~= Seq::<BlockView>::empty());
            assert(recorded(blocks.drop_last()) =~= Seq::<TransactionView>::empty());
            assert(self.history() =~= Seq::<TransactionView>::empty());
        }
    }

    /// The balance of `address`: zero if it never took part in a
    /// transaction.
    pub fn get_balance(&self, address: &str) -> (balance: u32)
        ensures
            balance == self.balance(address@),
    {
        self.balances.balance_of(address)
    }

    /// Whether a transaction may be submitted: either the sender cannot
    /// afford it, so that it is rejected, or the receiver's balance after it
    /// still fits in 32 bits.
    pub fn accepts(&self, sender: &str, receiver: &str, amount: u32) -> (ok: bool)
        ensures
            ok == (affordable(self.ledger(), sender@, amount) ==> credit_fits(
                self.ledger(),
                sender@,
                receiver@,
                amount,
            )),
    {
        if !self.balances.can_afford(sender, amount) {
            return true;
        }
        let held: u32 = self.balances.balance_of(receiver);
        let left: u32 = if !str_eq(sender, NETWORK) && str_eq(sender, receiver) {
            held - amount
        } else {
            held
        };
        left <= u32::MAX - amount
    }

    /// Submits a transaction. It is rejected if the sender is not the
    /// network and owns less than `amount`; the engine is then left as it
    /// was. Otherwise the balances change at once and the transaction joins
    /// the pool.
    pub fn add_transaction(&mut self, sender: &str, receiver: &str, amount: u32) -> (outcome: Result<
        (),
        InsufficientBalance,
    >)
        requires
            old(self).wf(),
            affordable(old(self).ledger(), sender@, amount) ==> credit_fits(
                old(self).ledger(),
                sender@,
                receiver@,
                amount,
            ),
        ensures
            final(self).wf(),
            final(self).blocks() == old(self).blocks(),
            match outcome {
                Ok(_) => {
                    &&& affordable(old(self).ledger(), sender@, amount)
                    &&& final(self).pending() == old(self).pending().push(
                        TransactionView { sender: sender@, receiver: receiver@, amount },
                    )
                    &&& final(self).ledger() == transferred(
                        old(self).ledger(),
                        sender@,
                        receiver@,
                        amount,
                    )
                },
                Err(error) => {
                    &&& !affordable(old(self).ledger(), sender@, amount)
                    &&& error.sender@ == sender@
                    &&& error.available == old(self).balance(sender@)
                    &&& error.requested == amount
                    &&& *final(self) == *old(self)
                },
            },
    {
        if !self.balances.can_afford(sender, amount) {
            return Err(
                InsufficientBalance {
                    sender: sender.to_owned(),
                    available: self.balances.balance_of(sender),
                    requested: amount,
                },
            );
        }
        self.accept(sender, receiver, amount);
        Ok(())
    }

    /// Applies a transaction that the sender can afford and puts it in the
    /// pool.
    fn accept(&mut self, sender: &str, receiver: &str, amount: u32)
        requires
            old(self).wf(),
            affordable(old(self).ledger(), sender@, amount),
            credit_fits(old(self).ledger(), sender@, receiver@, amount),
        ensures
            final(self).wf(),
            final(self).blocks() == old(self).blocks(),
            final(self).pending() == old(self).pending().push(
                TransactionView { sender: sender@, receiver: receiver@, amount },
            ),
            final(self).ledger() == transferred(old(self).ledger(), sender@, receiver@, amount),
    {
        let transaction = Transaction::new(sender.to_owned(), receiver.to_owned(), amount);
        proof {
            lemma_replay_push(self.history(), transaction@);
            assert(self.history().push(transaction@) =~= recorded(self.blocks())
                + self.pending().push(transaction@));
        }
        self.balances.apply(sender, receiver, amount);
        self.current_transactions.add(transaction);
    }

    /// The blocks of the chain, first to last.
    pub fn chain(&self) -> (blocks: &[Block])
        ensures
            block_views(blocks@) == self.blocks(),
    {
        self.chain.as_slice()
    }

    /// A copy of the transactions in the pool, in the order of their
    /// acceptance.
    pub fn pending_transactions(&self) -> (pending: Vec<Transaction>)
        ensures
            views(pending@) == self.pending(),
    {
        self.current_transactions.snapshot()
    }

    /// Every balance entry as address and balance, in the order in which
    /// the addresses first took part in a transaction.
    pub fn balances(&self) -> (list: Vec<(String, u32)>)
        ensures
            entry_views(list@) == self.listing(),
    {
        let list = self.balances.entries();
        assert(self.balances.listing() =~= self.listing());
        list
    }

    /// The report of the chain, block by block.
    pub fn display_chain(&self) -> (text: String)
        ensures
            text@ == chain_report(self.blocks()),
    {
        render_chain(self.chain.as_slice())
    }

    /// The report of the balances, account by account.
    pub fn display_balances(&self) -> (text: String)
        ensures
            text@ == balances_report(self.listing()),
    {
        let list = self.balances();
        render_balances(list.as_slice())
    }

    /// The last block of the chain.
    pub fn last_block(&self) -> (block: &Block)
        requires
            self.wf(),
        ensures
            block@ == self.blocks().last(),
    {
        &self.chain[self.chain.len() - 1]
    }

    /// Mines a block with a proof and a timestamp that the caller brings.
    /// Where the chain has no room for a block, or `proof` does not solve
    /// the puzzle of the last block, nothing happens. Otherwise the miner is
    /// rewarded, the pool and the reward become the new block, and the pool
    /// is emptied.
    pub fn mine_block_with(&mut self, miner_address: &str, proof: u32, timestamp: u64) -> (mined:
        Option<Block>)
        requires
            old(self).wf(),
            credit_fits(old(self).ledger(), network(), miner_address@, MINING_REWARD),
        ensures
            final(self).wf(),
            mined is Some <==> old(self).has_room() && solves(
                old(self).blocks().last().proof,
                proof,
            ),
            match mined {
                Some(block) => {
                    &&& block@ == mined_block(
                        old(self).blocks(),
                        old(self).pending(),
                        miner_address@,
                        proof,
                        timestamp,
                    )
                    &&& final(self).blocks() == old(self).blocks().push(block@)
                    &&& final(self).blocks().len() == old(self).blocks().len() + 1
                    &&& final(self).pending() == Seq::<TransactionView>::empty()
                    &&& final(self).ledger() == transferred(
                        old(self).ledger(),
                        network(),
                        miner_address@,
                        MINING_REWARD,
                    )
                },
                None => *final(self) == *old(self),
            },
    {
        if self.chain.len() as u64 > u32::MAX as u64 {
            return None;
        }
        let last_proof: u32 = self.last_block().work_proof();
        if !valid_proof(last_proof, proof) {
            return None;
        }
        self.accept(NETWORK, miner_address, MINING_REWARD);
        let last_block = self.last_block();
        let new_block = Block::new(
            self.chain.len() as u32,
            last_block.hash().to_owned(),
            timestamp,
            self.current_transactions.snapshot(),
            proof,
            String::new(),
        );
        let block_hash = calculate_hash(&new_block);
        let new_block = new_block.with_hash(block_hash);
        let ghost before = self.blocks();
        let ghost waiting = self.pending();
        self.chain.push(new_block.clone());
        self.current_transactions.clear();
        proof {
            assert(self.blocks() =~= before.push(new_block@));
            lemma_recorded_push(before, new_block@);
            assert(self.history() =~= recorded(before) + waiting);
        }
        Some(new_block)
    }

    /// The blocks of an engine form a chain: a genesis block first, each
    /// block at the index of its position, each later block naming the hash
    /// of the block before it, sealed by a proof that solves that block's
    /// puzzle, and carrying the digest of its own content as its hash.
    pub proof fn lemma_is_chain(&self)
        requires
            self.wf(),
        ensures
            is_chain(self.blocks()),
    {
    }

    /// Chain linkage: every block but the first names the hash of the block
    /// before it, and every block stands at the index of its position.
    pub proof fn lemma_chain_linked(&self)
        requires
            self.wf(),
        ensures
            forall|i: int|
                1 <= i < self.blocks().len() ==> (#[trigger] self.blocks()[i]).previous_hash
                    == self.blocks()[i - 1].hash && self.blocks()[i].index == i,
    {
    }

    /// The balances are derived state: they are what replaying every
    /// accepted transaction on an empty ledger gives, and every accepted
    /// transaction could be afforded at its turn.
    pub proof fn lemma_balances_replayed(&self)
        requires
            self.wf(),
        ensures
            acceptable(self.history()),
            self.ledger() == replay(self.history()),
            self.accounts() == roster(self.history()),
    {
    }

    /// The accounts are exactly the addresses with a balance entry, each
    /// listed once.
    pub proof fn lemma_accounts_are_entries(&self)
        requires
            self.wf(),
        ensures
            self.accounts().no_duplicates(),
            forall|a: Seq<char>| #[trigger] self.ledger().contains_key(a) <==> self.accounts().contains(a),
    {
    }

    /// Balance conservation: the balance of every address but the network
    /// is what the accepted transactions paid to it less what they took
    /// from it.
    pub proof fn lemma_balance_conserved(&self, address: Seq<char>)
        requires
            self.wf(),
            address != network(),
        ensures
            self.balance(address) == received(self.history(), address) - sent(
                self.history(),
                address,
            ),
    {
        lemma_replay_is_net(self.history(), address);
    }

    /// Mines a block: searches a proof for the puzzle of the last block,
    /// reads the clock, and appends the block as [`Self::mine_block_with`]
    /// says. It fails, and leaves the engine as it was, only if the chain
    /// has no room for a block or the search range holds no proof that
    /// solves the puzzle.
    pub fn mine_block(&mut self, miner_address: &str) -> (mined: Option<Block>)
        requires
            old(self).wf(),
            credit_fits(old(self).ledger(), network(), miner_address@, MINING_REWARD),
        ensures
            final(self).wf(),
            match mined {
                Some(block) => {
                    &&& in_search_range(block@.proof)
                    &&& solves(old(self).blocks().last().proof, block@.proof)
                    &&& block@ == mined_block(
                        old(self).blocks(),
                        old(self).pending(),
                        miner_address@,
                        block@.proof,
                        block@.timestamp,
                    )
                    &&& final(self).blocks() == old(self).blocks().push(block@)
                    &&& final(self).blocks().len() == old(self).blocks().len() + 1
                    &&& final(self).pending() == Seq::<TransactionView>::empty()
                    &&& final(self).ledger() == transferred(
                        old(self).ledger(),
                        network(),
                        miner_address@,
                        MINING_REWARD,
                    )
                },
                None => {
                    &&& *final(self) == *old(self)
                    &&& !old(self).has_room() || forall|proof: u32|
                        in_search_range(proof) ==> !solves(old(self).blocks().last().proof, proof)
                },
            },
    {
        if self.chain.len() as u64 > u32::MAX as u64 {
            return None;
        }
        let last_proof: u32 = self.last_block().work_proof();
        match proof_of_work(last_proof) {
            Some(proof) => {
                let timestamp: u64 = Self::current_timestamp();
                self.mine_block_with(miner_address, proof, timestamp)
            },
            None => None,
        }
    }
}

} // verus!
