//! The ledger state: the balance of every address that took part in a
//! transaction.

use crate::text::str_eq;
use vstd::hash_map::StringHashMap;
use vstd::prelude::*;
use vstd::string::*;

verus! {

/// The reserved address that issues value. It is never checked before it
/// sends and never debited.
pub const NETWORK: &'static str = "network";

/// The reserved address, as a sequence of characters.
pub open spec fn network() -> Seq<char> {
    NETWORK@
}

/// The balance of `address` in `balances`: zero where it has no entry.
pub open spec fn balance_in(balances: Map<Seq<char>, u32>, address: Seq<char>) -> nat {
    if balances.contains_key(address) {
        balances[address] as nat
    } else {
        0
    }
}

/// Whether `sender` may send `amount`: the network always may, any other
/// address only up to its balance.
pub open spec fn affordable(balances: Map<Seq<char>, u32>, sender: Seq<char>, amount: u32) -> bool {
    sender == network() || balance_in(balances, sender) >= amount
}

/// `balances` after `sender` has paid `amount`. The network pays nothing.
pub open spec fn debited(balances: Map<Seq<char>, u32>, sender: Seq<char>, amount: u32) -> Map<
    Seq<char>,
    u32,
> {
    if sender == network() {
        balances
    } else {
        balances.insert(sender, (balance_in(balances, sender) - amount) as u32)
    }
}

/// `balances` after `receiver` has received `amount`.
pub open spec fn credited(balances: Map<Seq<char>, u32>, receiver: Seq<char>, amount: u32) -> Map<
    Seq<char>,
    u32,
> {
    balances.insert(receiver, (balance_in(balances, receiver) + amount) as u32)
}

/// `balances` after a transfer: the sender's debit, then the receiver's
/// credit.
pub open spec fn transferred(
    balances: Map<Seq<char>, u32>,
    sender: Seq<char>,
    receiver: Seq<char>,
    amount: u32,
) -> Map<Seq<char>, u32> {
    credited(debited(balances, sender, amount), receiver, amount)
}

/// Whether the receiver's balance after the transfer still fits in 32 bits.
pub open spec fn credit_fits(
    balances: Map<Seq<char>, u32>,
    sender: Seq<char>,
    receiver: Seq<char>,
    amount: u32,
) -> bool {
    balance_in(debited(balances, sender, amount), receiver) + amount <= u32::MAX
}

/// `accounts` with `address` behind them, unless it is among them already.
pub open spec fn enrolled(accounts: Seq<Seq<char>>, address: Seq<char>) -> Seq<Seq<char>> {
    if accounts.contains(address) {
        accounts
    } else {
        accounts.push(address)
    }
}

/// `accounts` after a transfer: the sender joins unless it is the network,
/// then the receiver joins.
pub open spec fn enrolled_both(accounts: Seq<Seq<char>>, sender: Seq<char>, receiver: Seq<char>) -> Seq<
    Seq<char>,
> {
    if sender == network() {
        enrolled(accounts, receiver)
    } else {
        enrolled(enrolled(accounts, sender), receiver)
    }
}

/// Balances by address. An address without an entry has balance zero.
pub struct Ledger {
    balances: StringHashMap<u32>,
    /// The addresses that have an entry, each once, in the order in which
    /// they got it.
    accounts: Vec<String>,
}

impl View for Ledger {
    type V = Map<Seq<char>, u32>;

    closed spec fn view(&self) -> Map<Seq<char>, u32> {
        self.balances@
    }
}

impl Ledger {
    /// The addresses that have an entry, in the order in which they got it.
    pub closed spec fn accounts(&self) -> Seq<Seq<char>> {
        self.accounts@.map_values(|a: String| a@)
    }

    /// The list of accounts names exactly the addresses with an entry, each
    /// once.
    pub open spec fn wf(&self) -> bool {
        &&& self.accounts().no_duplicates()
        &&& forall|a: Seq<char>| #[trigger] self@.contains_key(a) <==> self.accounts().contains(a)
    }

    /// A ledger without entries.
    pub fn new() -> (ledger: Self)
        ensures
            ledger.wf(),
            ledger@ == Map::<Seq<char>, u32>::empty(),
            ledger.accounts() == Seq::<Seq<char>>::empty(),
    {
        let ledger = Ledger { balances: StringHashMap::new(), accounts: Vec::new() };
        assert(ledger.accounts() =~= Seq::<Seq<char>>::empty());
        ledger
    }

    /// The balance of `address`, zero if it has no entry.
    pub fn balance_of(&self, address: &str) -> (balance: u32)
        ensures
            balance == balance_in(self@, address@),
    {
        match self.balances.get(address) {
            Some(balance) => *balance,
            None => 0,
        }
    }

    /// Whether `address` may send `amount`.
    pub fn can_afford(&self, address: &str, amount: u32) -> (ok: bool)
        ensures
            ok == affordable(self@, address@, amount),
    {
        str_eq(address, NETWORK) || self.balance_of(address) >= amount
    }

    /// Gives `address` the balance `value`, with a new entry if it has none.
    fn set(&mut self, address: &str, value: u32)
        requires
            old(self).wf(),
        ensures
            final(self).wf(),
            final(self)@ == old(self)@.insert(address@, value),
            final(self).accounts() == enrolled(old(self).accounts(), address@),
    {
        let ghost before = self.accounts();
        assert(self@.contains_key(address@) <==> before.contains(address@));
        if !self.balances.contains_key(address) {
            self.accounts.push(address.to_owned());
            assert(self.accounts() =~= before.push(address@));
            assert(!before.contains(address@));
        }
        self.balances.insert(address.to_owned(), value);
        proof {
            let now = self.accounts();
            assert(now == enrolled(before, address@));
            assert forall|a: Seq<char>| now.contains(a) <==> (before.contains(a) || a == address@) by {
                if before.contains(a) {
                    let i = choose|i: int| 0 <= i < before.len() && before[i] == a;
                    assert(now[i] == a);
                }
                if a == address@ && !before.contains(a) {
                    assert(now[now.len() - 1] == a);
                }
                if now.contains(a) {
                    let i = choose|i: int| 0 <= i < now.len() && now[i] == a;
                    if i < before.len() {
                        assert(before[i] == a);
                    }
                }
            }
            assert forall|a: Seq<char>| #[trigger] self@.contains_key(a) <==> now.contains(a) by {
                assert(old(self)@.contains_key(a) <==> before.contains(a));
                assert(old(self)@.contains_key(address@) <==> before.contains(address@));
            }
        }
    }

    /// Moves `amount` from `sender` to `receiver`: debits the sender unless
    /// it is the network, then credits the receiver. The caller has checked
    /// that the sender can afford it.
    pub fn apply(&mut self, sender: &str, receiver: &str, amount: u32)
        requires
            old(self).wf(),
            affordable(old(self)@, sender@, amount),
            credit_fits(old(self)@, sender@, receiver@, amount),
        ensures
            final(self).wf(),
            final(self)@ == transferred(old(self)@, sender@, receiver@, amount),
            final(self).accounts() == enrolled_both(old(self).accounts(), sender@, receiver@),
    {
        if !str_eq(sender, NETWORK) {
            let before: u32 = self.balance_of(sender);
            self.set(sender, before - amount);
        }
        let before: u32 = self.balance_of(receiver);
        self.set(receiver, before + amount);
    }

    /// Every entry as address and balance, in the order of
    /// [`Self::accounts`].
    pub open spec fn listing(&self) -> Seq<(Seq<char>, u32)> {
        Seq::new(
            self.accounts().len(),
            |i: int| (self.accounts()[i], balance_in(self@, self.accounts()[i]) as u32),
        )
    }

    /// Every entry as address and balance, in the order in which the
    /// addresses got their entries.
    pub fn entries(&self) -> (list: Vec<(String, u32)>)
        ensures
            entry_views(list@) == self.listing(),
    {
        let mut list: Vec<(String, u32)> = Vec::new();
        let mut k: usize = 0;
        while k < self.accounts.len()
            invariant
                k <= self.accounts.len(),
                entry_views(list@) == self.listing().take(k as int),
            decreases self.accounts.len() - k,
        {
            let address = self.accounts[k].clone();
            let balance: u32 = self.balance_of(address.as_str());
            let ghost shown = entry_views(list@);
            list.push((address, balance));
            proof {
                assert(self.accounts()[k as int] == address@);
                assert(self.listing()[k as int] == (address@, balance));
                assert(entry_views(list@) =~= shown.push((address@, balance)));
                assert(self.listing().take(k + 1) =~= self.listing().take(k as int).push(
                    self.listing()[k as int],
                ));
            }
            k = k + 1;
        }
        assert(self.listing().take(k as int) =~= self.listing());
        list
    }
}

/// A list of entries as plain values.
pub open spec fn entry_views(list: Seq<(String, u32)>) -> Seq<(Seq<char>, u32)> {
    list.map_values(|entry: (String, u32)| (entry.0@, entry.1))
}

} // verus!
