//! Blocks of the chain and the text that a block's hash is taken over.

use crate::hashing::digest;
use crate::hashing::hex_chars;
use crate::hashing::sha256;
use crate::text::decimal;
use crate::text::push_decimal;
use crate::transaction::push_transactions_text;
use crate::transaction::transactions_text;
use crate::transaction::views;
use crate::transaction::Transaction;
use crate::transaction::TransactionView;
use vstd::prelude::*;
use vstd::string::*;
use vstd::utf8::encode_utf8;

verus! {

/// One block of the chain. Apart from the genesis block, `hash` is the
/// digest of the other five fields.
#[derive(Debug)]
pub struct Block {
    index: u32,
    previous_hash: String,
    timestamp: u64,
    transactions: Vec<Transaction>,
    proof: u32,
    hash: String,
}

/// What a [`Block`] holds, as plain values.
pub struct BlockView {
    pub index: u32,
    pub previous_hash: Seq<char>,
    pub timestamp: u64,
    pub transactions: Seq<TransactionView>,
    pub proof: u32,
    pub hash: Seq<char>,
}

impl View for Block {
    type V = BlockView;

    closed spec fn view(&self) -> BlockView {
        BlockView {
            index: self.index,
            previous_hash: self.previous_hash@,
            timestamp: self.timestamp,
            transactions: views(self.transactions@),
            proof: self.proof,
            hash: self.hash@,
        }
    }
}

/// The views of a sequence of blocks, in order.
pub open spec fn block_views(blocks: Seq<Block>) -> Seq<BlockView> {
    blocks.map_values(|b: Block| b@)
}

/// The text that a block's hash is taken over: index, previous hash,
/// timestamp, the canonical text of the transactions, and proof, with
/// nothing between them. The numbers are in decimal.
pub open spec fn block_text(b: BlockView) -> Seq<char> {
    decimal(b.index as nat) + b.previous_hash + decimal(b.timestamp as nat) + transactions_text(
        b.transactions,
    ) + decimal(b.proof as nat)
}

/// The hash that a block with these fields must carry: the hexadecimal
/// SHA-256 digest of the UTF-8 bytes of [`block_text`]. The field `hash`
/// itself plays no part.
pub open spec fn block_hash(b: BlockView) -> Seq<char> {
    hex_chars(sha256(encode_utf8(block_text(b))))
}

/// The hash of `block`: the digest of its text. The hash that the block
/// carries plays no part.
pub fn calculate_hash(block: &Block) -> (hash: String)
    ensures
        hash@ == block_hash(block@),
        hash@.len() == 64,
{
    let text = block.text();
    digest(text.as_str().as_bytes())
}

impl Clone for Block {
    fn clone(&self) -> (copy: Self)
        ensures
            copy@ == self@,
    {
        let transactions = self.transactions.clone();
        assert(views(transactions@) =~= views(self.transactions@));
        Block {
            index: self.index,
            previous_hash: self.previous_hash.clone(),
            timestamp: self.timestamp,
            transactions,
            proof: self.proof,
            hash: self.hash.clone(),
        }
    }
}

impl Block {
    /// A block of these six fields, taken as they come.
    pub fn new(
        index: u32,
        previous_hash: String,
        timestamp: u64,
        transactions: Vec<Transaction>,
        proof: u32,
        hash: String,
    ) -> (block: Self)
        ensures
            block@ == (BlockView {
                index,
                previous_hash: previous_hash@,
                timestamp,
                transactions: views(transactions@),
                proof,
                hash: hash@,
            }),
    {
        Block { index, previous_hash, timestamp, transactions, proof, hash }
    }

    /// The same block with `hash` in place of its hash.
    pub fn with_hash(self, hash: String) -> (block: Self)
        ensures
            block@ == (BlockView { hash: hash@, ..self@ }),
    {
        Block {
            index: self.index,
            previous_hash: self.previous_hash,
            timestamp: self.timestamp,
            transactions: self.transactions,
            proof: self.proof,
            hash,
        }
    }

    /// The position of this block in its chain, from 0.
    pub fn index(&self) -> (i: u32)
        ensures
            i == self@.index,
    {
        self.index
    }

    /// The hash of the block before this one.
    pub fn previous_hash(&self) -> (h: &str)
        ensures
            h@ == self@.previous_hash,
    {
        self.previous_hash.as_str()
    }

    /// When this block was made, in seconds since the start of 1970.
    pub fn timestamp(&self) -> (t: u64)
        ensures
            t == self@.timestamp,
    {
        self.timestamp
    }

    /// The transactions that this block holds, in order.
    pub fn transactions(&self) -> (txs: &[Transaction])
        ensures
            views(txs@) == self@.transactions,
    {
        self.transactions.as_slice()
    }

    /// The proof of work that sealed this block.
    pub fn work_proof(&self) -> (p: u32)
        ensures
            p == self@.proof,
    {
        self.proof
    }

    /// The hash that this block carries.
    pub fn hash(&self) -> (h: &str)
        ensures
            h@ == self@.hash,
    {
        self.hash.as_str()
    }

    /// The text that this block's hash is taken over.
    pub fn text(&self) -> (text: String)
        ensures
            text@ == block_text(self@),
    {
        let mut text = String::new();
        push_decimal(&mut text, self.index as u64);
        text.append(self.previous_hash.as_str());
        push_decimal(&mut text, self.timestamp);
        push_transactions_text(&mut text, self.transactions.as_slice());
        push_decimal(&mut text, self.proof as u64);
        assert(text@ =~= block_text(self@));
        text
    }
}

} // verus!
