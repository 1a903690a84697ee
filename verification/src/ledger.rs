//! A model of the fungible-token ledger the escrow controller moves funds on:
//! a balance for every address, with atomic transfers that conserve value and
//! never drive a balance negative.

use vstd::prelude::*;
use crate::types::Address;

verus! {

broadcast use vstd::std_specs::hash::group_hash_axioms;

/// The change a transfer of `amount` from `from` to `to` makes to the balance
/// of address `a`: `+amount` at the recipient, `-amount` at the sender, zero
/// anywhere else, and zero everywhere when sender and recipient coincide.
pub open spec fn transfer_delta(from: Address, to: Address, amount: i128, a: Address) -> int {
    (if a == to {
        amount as int
    } else {
        0
    }) - (if a == from {
        amount as int
    } else {
        0
    })
}

/// A ledger of fungible balances. Addresses without an entry hold zero.
pub struct Ledger {
    accounts: vstd::hash_map::HashMapWithView<u64, i128>,
}

impl Ledger {
    /// The balance held by `a`; zero for an address the ledger has never seen.
    pub closed spec fn balance(self, a: Address) -> int {
        if self.accounts@.dom().contains(a.id) {
            self.accounts@[a.id] as int
        } else {
            0
        }
    }

    /// Every balance on the ledger is non-negative.
    pub open spec fn wf(self) -> bool {
        forall|a: Address| #[trigger] self.balance(a) >= 0
    }

    /// An empty ledger: every address holds zero.
    pub fn new() -> (l: Ledger)
        ensures
            l.wf(),
            forall|a: Address| #[trigger] l.balance(a) == 0,
    {
        Ledger { accounts: vstd::hash_map::HashMapWithView::new() }
    }

    /// The balance held by `a`, as a value.
    pub fn balance_of(&self, a: Address) -> (r: i128)
        ensures
            r as int == self.balance(a),
    {
        match self.accounts.get(&a.id) {
            Some(v) => *v,
            None => 0i128,
        }
    }

    /// Creates `amount` new units on the balance of `to`.
    pub fn mint(&mut self, to: Address, amount: i128)
        requires
            old(self).wf(),
            amount >= 0,
            old(self).balance(to) + amount <= i128::MAX,
        ensures
            final(self).wf(),
            forall|a: Address|
                #[trigger] final(self).balance(a) == old(self).balance(a) + (if a == to {
                    amount as int
                } else {
                    0
                }),
    {
        let before = self.balance_of(to);
        self.accounts.insert(to.id, before + amount);
        proof {
            assert forall|a: Address|
                #[trigger] self.balance(a) == old(self).balance(a) + (if a == to {
                    amount as int
                } else {
                    0
                }) by {
                if a.id == to.id {
                    assert(a == to);
                }
            }
        }
    }

    /// Moves `amount` from `from` to `to` atomically: the sender must hold at
    /// least `amount`, value is conserved, and no other balance changes. A
    /// transfer from an address to itself leaves the ledger as it was.
    pub fn transfer(&mut self, from: Address, to: Address, amount: i128)
        requires
            old(self).wf(),
            amount >= 0,
            old(self).balance(from) >= amount,
            from != to ==> old(self).balance(to) + amount <= i128::MAX,
        ensures
            final(self).wf(),
            forall|a: Address|
                #[trigger] final(self).balance(a) == old(self).balance(a) + transfer_delta(
                    from,
                    to,
                    amount,
                    a,
                ),
    {
        if from.id == to.id {
            proof {
                assert(from == to);
            }
            return ;
        }
        let sender_before = self.balance_of(from);
        let recipient_before = self.balance_of(to);
        self.accounts.insert(from.id, sender_before - amount);
        self.accounts.insert(to.id, recipient_before + amount);
        proof {
            assert(from != to);
            assert forall|a: Address|
                #[trigger] self.balance(a) == old(self).balance(a) + transfer_delta(
                    from,
                    to,
                    amount,
                    a,
                ) by {
                if a.id == to.id {
                    assert(a == to);
                } else if a.id == from.id {
                    assert(a == from);
                } else {
                    assert(a != to && a != from);
                }
            }
        }
    }
}

} // verus!
