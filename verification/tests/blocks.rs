use crypto_simulation::block::calculate_hash;
use crypto_simulation::block::Block;
use crypto_simulation::blockchain::Blockchain;
use crypto_simulation::hashing::digest;
use crypto_simulation::transaction::push_record_text;
use crypto_simulation::transaction::push_transactions_text;
use crypto_simulation::transaction::Transaction;

fn tx(sender: &str, receiver: &str, amount: u32) -> Transaction {
    Transaction::new(sender.to_string(), receiver.to_string(), amount)
}

fn list_text(txs: &[Transaction]) -> String {
    let mut out = String::new();
    push_transactions_text(&mut out, txs);
    out
}

#[test]
fn transaction_keeps_what_it_was_built_with() {
    let t = tx("Alice", "Bob", 20);
    assert_eq!(t.sender(), "Alice");
    assert_eq!(t.receiver(), "Bob");
    assert_eq!(t.amount(), 20);
    let copy = t.clone();
    assert_eq!(copy.sender(), "Alice");
    assert_eq!(copy.receiver(), "Bob");
    assert_eq!(copy.amount(), 20);
}

#[test]
fn transaction_text_quotes_the_addresses() {
    let mut out = String::from(">");
    tx("Alice", "Bob", 20).push_text(&mut out);
    assert_eq!(out, ">Transaction { sender: \"Alice\", receiver: \"Bob\", amount: 20 }");
}

#[test]
fn transaction_text_escapes_as_debug_formatting_does() {
    let t = tx("a\"b\\c", "line\nbreak\t\u{e9}\u{7f}", 4294967295);
    let mut out = String::new();
    t.push_text(&mut out);
    assert_eq!(
        out,
        "Transaction { sender: \"a\\\"b\\\\c\", receiver: \"line\\nbreak\\t\u{e9}\\u{7f}\", amount: 4294967295 }"
    );
    assert_eq!(out, format!("{:?}", t));
}

#[test]
fn record_text_takes_the_addresses_as_they_come() {
    let mut out = String::new();
    push_record_text(&mut out, "<s>", "<r>", 0);
    assert_eq!(out, "Transaction { sender: <s>, receiver: <r>, amount: 0 }");
}

#[test]
fn list_text_is_bracketed_and_comma_separated() {
    assert_eq!(list_text(&[]), "[]");
    let one = vec![tx("network", "Alice", 100)];
    assert_eq!(
        list_text(&one),
        "[Transaction { sender: \"network\", receiver: \"Alice\", amount: 100 }]"
    );
    let three = vec![tx("network", "Alice", 100), tx("Alice", "Bob", 20), tx("Bob", "C", 1)];
    assert_eq!(
        list_text(&three),
        "[Transaction { sender: \"network\", receiver: \"Alice\", amount: 100 }, \
         Transaction { sender: \"Alice\", receiver: \"Bob\", amount: 20 }, \
         Transaction { sender: \"Bob\", receiver: \"C\", amount: 1 }]"
    );
    assert_eq!(list_text(&three), format!("{:?}", three));
}

#[test]
fn block_keeps_what_it_was_built_with() {
    let block = Block::new(
        3,
        "abc".to_string(),
        99,
        vec![tx("a", "b", 1)],
        1234,
        "def".to_string(),
    );
    assert_eq!(block.index(), 3);
    assert_eq!(block.previous_hash(), "abc");
    assert_eq!(block.timestamp(), 99);
    assert_eq!(block.transactions().len(), 1);
    assert_eq!(block.work_proof(), 1234);
    assert_eq!(block.hash(), "def");
    let copy = block.clone();
    assert_eq!(format!("{:?}", copy), format!("{:?}", block));
    let sealed = block.with_hash("0123".to_string());
    assert_eq!(sealed.hash(), "0123");
    assert_eq!(sealed.index(), 3);
    assert_eq!(sealed.previous_hash(), "abc");
    assert_eq!(sealed.timestamp(), 99);
    assert_eq!(sealed.transactions().len(), 1);
    assert_eq!(sealed.work_proof(), 1234);
}

#[test]
fn block_text_joins_the_fields_without_separators() {
    let block = Block::new(
        1,
        "0".to_string(),
        1700000000,
        vec![tx("network", "Alice", 100), tx("Alice", "Bob", 20)],
        1075,
        String::new(),
    );
    assert_eq!(
        block.text(),
        "101700000000[Transaction { sender: \"network\", receiver: \"Alice\", amount: 100 }, \
         Transaction { sender: \"Alice\", receiver: \"Bob\", amount: 20 }]1075"
    );
    let empty = Block::new(0, "0".to_string(), 5, vec![], 100, "0".to_string());
    assert_eq!(empty.text(), "005[]100");
}

#[test]
fn block_hash_is_the_digest_of_its_text() {
    let block = Block::new(
        1,
        "0".to_string(),
        1700000000,
        vec![tx("network", "Alice", 100), tx("Alice", "Bob", 20)],
        1075,
        String::new(),
    );
    assert_eq!(
        calculate_hash(&block),
        "11577c7d2093d7186ed99f2f1e6c605e39e533a83a4b6a30055ea0ed70e1df88"
    );
    let empty = Block::new(0, "0".to_string(), 5, vec![], 100, "0".to_string());
    assert_eq!(
        calculate_hash(&empty),
        "8c223a2497f19b13524f90e3a857605da254eb36f8ba37d59d364859041f290b"
    );
}

#[test]
fn block_hash_does_not_depend_on_the_hash_it_carries() {
    let block = Block::new(2, "ff".to_string(), 7, vec![tx("a", "b", 1)], 1, String::new());
    let first = calculate_hash(&block);
    let sealed = block.with_hash(first.clone());
    assert_eq!(calculate_hash(&sealed), first);
}

#[test]
fn mined_block_carries_the_hash_of_its_content() {
    let mut blockchain = Blockchain::new();
    blockchain.add_transaction("network", "Alice", 100).unwrap();
    blockchain.add_transaction("Alice", "Bob", 20).unwrap();
    let block = blockchain.mine_block_with("Miner1", 1075, 1700000000).unwrap();
    let expected = format!(
        "{}{}{}{:?}{}",
        1,
        "0",
        1700000000u64,
        block.transactions(),
        1075
    );
    assert_eq!(block.hash(), digest(expected.as_bytes()));
    assert_eq!(block.hash(), calculate_hash(&block));
    let mined = blockchain.mine_block("Miner2").unwrap();
    assert_eq!(mined.previous_hash(), block.hash());
    assert_eq!(mined.hash(), calculate_hash(&mined));
}

#[test]
fn genesis_block_keeps_its_fixed_hash() {
    let blockchain = Blockchain::new();
    let genesis = &blockchain.chain()[0];
    assert_eq!(genesis.hash(), "0");
    assert_ne!(calculate_hash(genesis), "0");
}
