use crypto_simulation::blockchain::Blockchain;
use crypto_simulation::ledger::Ledger;
use crypto_simulation::ledger::NETWORK;
use crypto_simulation::pool::TransactionPool;
use crypto_simulation::report::render_balances;
use crypto_simulation::report::render_chain;
use crypto_simulation::transaction::Transaction;

#[test]
fn unknown_address_has_balance_zero() {
    let ledger = Ledger::new();
    assert_eq!(ledger.balance_of("Alice"), 0);
    assert_eq!(ledger.balance_of(""), 0);
    assert!(ledger.entries().is_empty());
}

#[test]
fn network_can_afford_anything() {
    let ledger = Ledger::new();
    assert_eq!(NETWORK, "network");
    assert!(ledger.can_afford("network", 0));
    assert!(ledger.can_afford("network", u32::MAX));
    assert!(ledger.can_afford("Alice", 0));
    assert!(!ledger.can_afford("Alice", 1));
    assert!(!ledger.can_afford("Network", 1));
}

#[test]
fn apply_debits_the_sender_and_credits_the_receiver() {
    let mut ledger = Ledger::new();
    ledger.apply("network", "Alice", 100);
    assert_eq!(ledger.balance_of("Alice"), 100);
    assert_eq!(ledger.balance_of("network"), 0);
    assert!(ledger.can_afford("Alice", 100));
    assert!(!ledger.can_afford("Alice", 101));
    ledger.apply("Alice", "Bob", 30);
    assert_eq!(ledger.balance_of("Alice"), 70);
    assert_eq!(ledger.balance_of("Bob"), 30);
    ledger.apply("Bob", "Bob", 30);
    assert_eq!(ledger.balance_of("Bob"), 30);
    ledger.apply("network", "Max", u32::MAX);
    assert_eq!(ledger.balance_of("Max"), u32::MAX);
    assert_eq!(
        ledger.entries(),
        vec![
            ("Alice".to_string(), 70),
            ("Bob".to_string(), 30),
            ("Max".to_string(), u32::MAX)
        ]
    );
}

#[test]
fn pool_keeps_the_order_of_submission() {
    let mut pool = TransactionPool::new();
    assert!(pool.snapshot().is_empty());
    pool.add(Transaction::new("a".to_string(), "b".to_string(), 1));
    pool.add(Transaction::new("c".to_string(), "d".to_string(), 2));
    let snapshot = pool.snapshot();
    assert_eq!(snapshot.len(), 2);
    assert_eq!(snapshot[0].sender(), "a");
    assert_eq!(snapshot[1].receiver(), "d");
    pool.clear();
    assert!(pool.snapshot().is_empty());
    // The copy taken before lives on.
    assert_eq!(snapshot.len(), 2);
    assert_eq!(snapshot[1].amount(), 2);
}

#[test]
fn chain_report_shows_every_block() {
    let mut blockchain = Blockchain::new();
    blockchain.add_transaction("network", "Alice", 100).unwrap();
    blockchain.add_transaction("Alice", "Bob", 20).unwrap();
    let block = blockchain.mine_block_with("Miner1", 1075, 1700000000).unwrap();
    let genesis_time = blockchain.chain()[0].timestamp();
    let expected = format!(
        "Blockchain Ledger:\n\
         Block #0\n  Previous Hash: 0\n  Timestamp: {}\n  Transactions:\n  Proof: 100\n  Hash: 0\n\n\
         Block #1\n  Previous Hash: 0\n  Timestamp: 1700000000\n  Transactions:\n\
         \x20   network -> Alice : 100 coins\n\
         \x20   Alice -> Bob : 20 coins\n\
         \x20   network -> Miner1 : 10 coins\n\
         \x20 Proof: 1075\n  Hash: {}\n\n",
        genesis_time,
        block.hash()
    );
    assert_eq!(blockchain.display_chain(), expected);
    assert_eq!(render_chain(blockchain.chain()), expected);
    assert_eq!(render_chain(&[]), "Blockchain Ledger:\n");
}

#[test]
fn balances_report_shows_every_account() {
    let mut blockchain = Blockchain::new();
    assert_eq!(blockchain.display_balances(), "\nCurrent Account Balances:\n");
    blockchain.add_transaction("network", "Alice", 100).unwrap();
    blockchain.add_transaction("Alice", "Bob", 20).unwrap();
    assert_eq!(
        blockchain.display_balances(),
        "\nCurrent Account Balances:\nAlice: 80 coins\nBob: 20 coins\n"
    );
    assert_eq!(
        render_balances(&[("x".to_string(), 0), ("y z".to_string(), 4294967295)]),
        "\nCurrent Account Balances:\nx: 0 coins\ny z: 4294967295 coins\n"
    );
}

#[test]
fn timestamp_is_a_recent_number_of_seconds() {
    let now = Blockchain::current_timestamp();
    // After the start of 2020 on any machine with a set clock.
    assert!(now > 1577836800);
    let blockchain = Blockchain::new();
    assert!(blockchain.chain()[0].timestamp() >= now);
}

#[test]
fn timestamp_of_a_reading_is_its_seconds_or_zero() {
    assert_eq!(Blockchain::timestamp_of(Some(0)), 0);
    assert_eq!(Blockchain::timestamp_of(Some(1700000000)), 1700000000);
    assert_eq!(Blockchain::timestamp_of(Some(u64::MAX)), u64::MAX);
    assert_eq!(Blockchain::timestamp_of(None), 0);
}
