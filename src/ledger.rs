use vstd::prelude::*;
use crate::address::Address;

verus! {

/// What the ledger holds for one account: its balance and the reserve floor
/// below which the account would become unusable.
#[derive(Clone, Copy, Debug)]
pub struct LedgerAccount {
    pub address: Address,
    pub balance: u64,
    pub reserve: u64,
}

/// No two entries share an address.
pub open spec fn unique_addresses(s: Seq<LedgerAccount>) -> bool {
    forall|i: int, j: int|
        0 <= i < s.len() && 0 <= j < s.len() && i != j ==> s[i].address@ != s[j].address@
}

/// Whether the ledger holds an account at `a`.
pub open spec fn holds(s: Seq<LedgerAccount>, a: Seq<u8>) -> bool {
    exists|i: int| 0 <= i < s.len() && s[i].address@ == a
}

/// The position of the account at `a`, where the ledger holds one.
pub open spec fn index_in(s: Seq<LedgerAccount>, a: Seq<u8>) -> int {
    choose|i: int| 0 <= i < s.len() && s[i].address@ == a
}

/// The balance at `a`; an account that the ledger does not hold has nothing.
pub open spec fn balance_in(s: Seq<LedgerAccount>, a: Seq<u8>) -> u64 {
    if holds(s, a) {
        s[index_in(s, a)].balance
    } else {
        0
    }
}

/// The reserve floor at `a`; none for an account that the ledger does not hold.
pub open spec fn reserve_in(s: Seq<LedgerAccount>, a: Seq<u8>) -> u64 {
    if holds(s, a) {
        s[index_in(s, a)].reserve
    } else {
        0
    }
}

/// The ledger accepts a transfer when it holds both accounts, the source
/// holds the amount, and the credit does not overflow the destination.
pub open spec fn can_transfer(s: Seq<LedgerAccount>, from: Seq<u8>, to: Seq<u8>, amount: u64) -> bool {
    &&& holds(s, from)
    &&& holds(s, to)
    &&& amount <= balance_in(s, from)
    &&& (from == to || balance_in(s, to) + amount <= u64::MAX)
}

/// An entry's balance once `amount` has moved from `from` to `to`.
pub open spec fn moved_balance(e: LedgerAccount, from: Seq<u8>, to: Seq<u8>, amount: u64) -> u64 {
    if e.address@ == from && from != to {
        (e.balance - amount) as u64
    } else if e.address@ == to && from != to {
        (e.balance + amount) as u64
    } else {
        e.balance
    }
}

/// The entries once `amount` has moved from `from` to `to`.
pub open spec fn after_transfer(s: Seq<LedgerAccount>, from: Seq<u8>, to: Seq<u8>, amount: u64) -> Seq<
    LedgerAccount,
> {
    Seq::new(
        s.len(),
        |i: int|
            LedgerAccount {
                address: s[i].address,
                balance: moved_balance(s[i], from, to, amount),
                reserve: s[i].reserve,
            },
    )
}

/// The balance of the account at `a` is that of its entry.
pub proof fn lemma_entry_balance(s: Seq<LedgerAccount>, i: int)
    requires
        unique_addresses(s),
        0 <= i < s.len(),
    ensures
        holds(s, s[i].address@),
        index_in(s, s[i].address@) == i,
        balance_in(s, s[i].address@) == s[i].balance,
        reserve_in(s, s[i].address@) == s[i].reserve,
{
    assert(holds(s, s[i].address@));
}

/// A transfer keeps the addresses and reserves, and changes the balances of
/// its two ends only, by the amount.
pub proof fn lemma_after_transfer(s: Seq<LedgerAccount>, from: Seq<u8>, to: Seq<u8>, amount: u64, a: Seq<u8>)
    requires
        unique_addresses(s),
        can_transfer(s, from, to, amount),
    ensures
        unique_addresses(after_transfer(s, from, to, amount)),
        holds(after_transfer(s, from, to, amount), a) == holds(s, a),
        reserve_in(after_transfer(s, from, to, amount), a) == reserve_in(s, a),
        balance_in(after_transfer(s, from, to, amount), a) == (if a == from && from != to {
            balance_in(s, a) - amount
        } else if a == to && from != to {
            balance_in(s, a) + amount
        } else {
            balance_in(s, a) as int
        }),
{
    let t = after_transfer(s, from, to, amount);
    assert(unique_addresses(t));
    if holds(s, a) {
        let i = index_in(s, a);
        lemma_entry_balance(s, i);
        lemma_entry_balance(t, i);
        lemma_entry_balance(s, index_in(s, from));
        lemma_entry_balance(s, index_in(s, to));
    } else {
        if holds(t, a) {
            let k = choose|k: int| 0 <= k < t.len() && t[k].address@ == a;
            assert(s[k].address@ == a);
        }
    }
}

/// The balances and reserve floors of a set of accounts.
pub struct Ledger {
    accounts: Vec<LedgerAccount>,
}

impl Ledger {
    /// The ledger's entries, in the order the accounts were opened.
    pub closed spec fn entries(&self) -> Seq<LedgerAccount> {
        self.accounts@
    }

    pub open spec fn wf(&self) -> bool {
        unique_addresses(self.entries())
    }

    pub fn new() -> (r: Ledger)
        ensures
            r.wf(),
            r.entries() == Seq::<LedgerAccount>::empty(),
    {
        Ledger { accounts: Vec::new() }
    }

    fn position(&self, a: &Address) -> (r: Option<usize>)
        requires
            self.wf(),
        ensures
            match r {
                Some(i) => i < self.entries().len() && self.entries()[i as int].address@ == a@
                    && index_in(self.entries(), a@) == i,
                None => !holds(self.entries(), a@),
            },
    {
        let mut i: usize = 0;
        while i < self.accounts.len()
            invariant
                i <= self.accounts@.len(),
                unique_addresses(self.accounts@),
                forall|k: int| 0 <= k < i ==> self.accounts@[k].address@ != a@,
            decreases self.accounts@.len() - i,
        {
            if self.accounts[i].address.same_as(a) {
                proof {
                    lemma_entry_balance(self.accounts@, i as int);
                }
                return Some(i);
            }
            i = i + 1;
        }
        None
    }

    /// Opens an account with a balance and a reserve floor; refused (false)
    /// where the ledger already holds one at that address.
    pub fn open_account(&mut self, address: &Address, balance: u64, reserve: u64) -> (r: bool)
        requires
            old(self).wf(),
        ensures
            final(self).wf(),
            r == !holds(old(self).entries(), address@),
            r ==> final(self).entries() == old(self).entries().push(
                LedgerAccount { address: *address, balance, reserve },
            ),
            !r ==> final(self).entries() == old(self).entries(),
    {
        match self.position(address) {
            Some(_) => false,
            None => {
                self.accounts.push(LedgerAccount { address: *address, balance, reserve });
                proof {
                    let s = self.accounts@;
                    assert forall|i: int, j: int|
                        0 <= i < s.len() && 0 <= j < s.len() && i != j implies s[i].address@
                        != s[j].address@ by {
                        if i == s.len() - 1 {
                            assert(!(old(self).accounts@[j].address@ == address@));
                        } else if j == s.len() - 1 {
                            assert(!(old(self).accounts@[i].address@ == address@));
                        }
                    }
                }
                true
            },
        }
    }

    /// The balance held at `a`.
    pub fn balance(&self, a: &Address) -> (r: u64)
        requires
            self.wf(),
        ensures
            r == balance_in(self.entries(), a@),
    {
        match self.position(a) {
            Some(i) => self.accounts[i].balance,
            None => 0,
        }
    }

    /// The reserve floor at `a`.
    pub fn minimum_reserve(&self, a: &Address) -> (r: u64)
        requires
            self.wf(),
        ensures
            r == reserve_in(self.entries(), a@),
    {
        match self.position(a) {
            Some(i) => self.accounts[i].reserve,
            None => 0,
        }
    }

    /// Moves `amount` from `from` to `to` as one step: both balances change or
    /// neither does.
    pub fn transfer(&mut self, from: &Address, to: &Address, amount: u64) -> (r: bool)
        requires
            old(self).wf(),
        ensures
            final(self).wf(),
            r == can_transfer(old(self).entries(), from@, to@, amount),
            r ==> final(self).entries() == after_transfer(old(self).entries(), from@, to@, amount),
            !r ==> final(self).entries() == old(self).entries(),
    {
        let ghost s = self.accounts@;
        let i = match self.position(from) {
            Some(i) => i,
            None => return false,
        };
        let j = match self.position(to) {
            Some(j) => j,
            None => return false,
        };
        if self.accounts[i].balance < amount {
            return false;
        }
        if i == j {
            assert(self.accounts@ =~= after_transfer(s, from@, to@, amount));
            return true;
        }
        if self.accounts[j].balance > u64::MAX - amount {
            return false;
        }
        let src = self.accounts[i];
        let dst = self.accounts[j];
        self.accounts.set(i, LedgerAccount { address: src.address, balance: src.balance - amount, reserve: src.reserve });
        self.accounts.set(j, LedgerAccount { address: dst.address, balance: dst.balance + amount, reserve: dst.reserve });
        assert(self.accounts@ =~= after_transfer(s, from@, to@, amount));
        assert(unique_addresses(self.accounts@));
        true
    }
}

} // verus!
