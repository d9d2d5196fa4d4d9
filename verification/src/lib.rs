//! A single-process proof-of-work ledger: accounts exchange value through
//! transactions, accepted transactions wait in a pool, and mining seals the
//! pool into a hash-linked block once a proof-of-work puzzle is solved.

pub mod block;
pub mod blockchain;
pub mod error;
pub mod hashing;
pub mod history;
pub mod ledger;
pub mod pool;
pub mod pow;
pub mod report;
pub mod text;
pub mod transaction;

pub use block::Block;
pub use blockchain::Blockchain;
pub use error::InsufficientBalance;
pub use transaction::Transaction;
