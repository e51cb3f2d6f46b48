//! The balance oracle: the one thing the module asks of the ledger.
use vstd::prelude::*;
use std::collections::HashMap;
use crate::origin::{AccountId, Balance};

verus! {

broadcast use vstd::std_specs::hash::group_hash_axioms;

/// What the module needs from the ledger that hosts it: the reserved
/// balance of an account. The module only reads it.
pub trait Config {
    /// The amount the ledger currently holds in reserve for `who`.
    spec fn reserved(&self, who: AccountId) -> Balance;

    /// Looks up the reserved balance of `who`. An implementation answers for
    /// every account, with zero for one that has nothing reserved.
    fn reserved_balance(&self, who: AccountId) -> (amount: Balance)
        ensures
            amount == self.reserved(who),
    ;
}

/// The amount that `table` gives for `who`: its entry, or zero without one.
pub open spec fn reserved_in(table: Map<AccountId, Balance>, who: AccountId) -> Balance {
    if table.contains_key(who) {
        table[who]
    } else {
        0
    }
}

/// A ledger kept in memory: a table of reserved balances in which an
/// account without an entry has nothing reserved.
pub struct Reserves {
    table: HashMap<AccountId, Balance>,
}

impl View for Reserves {
    type V = Map<AccountId, Balance>;

    closed spec fn view(&self) -> Map<AccountId, Balance> {
        self.table@
    }
}

impl Reserves {
    /// A ledger in which no account has anything reserved.
    pub fn new() -> (ledger: Self)
        ensures
            ledger@ == Map::<AccountId, Balance>::empty(),
    {
        Reserves { table: HashMap::new() }
    }

    /// Sets the reserved balance of `who` to `amount`.
    pub fn set_reserved(&mut self, who: AccountId, amount: Balance)
        ensures
            final(self)@ == old(self)@.insert(who, amount),
    {
        self.table.insert(who, amount);
    }
}

impl Config for Reserves {
    open spec fn reserved(&self, who: AccountId) -> Balance {
        reserved_in(self@, who)
    }

    fn reserved_balance(&self, who: AccountId) -> (amount: Balance) {
        match self.table.get(&who) {
            Some(amount) => *amount,
            None => 0,
        }
    }
}

} // verus!
