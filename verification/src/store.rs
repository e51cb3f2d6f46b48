//! The state store: one scalar slot and a table of balance snapshots.
use vstd::prelude::*;
use std::collections::HashMap;
use crate::origin::{AccountId, Balance};

verus! {

broadcast use vstd::std_specs::hash::group_hash_axioms;

/// What a state store holds, as plain mathematics.
pub struct StoreState {
    /// The value in the scalar slot.
    pub scalar: u32,
    /// The balance snapshot of every account that has one.
    pub snapshots: Map<AccountId, Balance>,
}

impl StoreState {
    /// The store before anything was written: slot at zero, no snapshot.
    pub open spec fn empty() -> StoreState {
        StoreState { scalar: 0, snapshots: Map::empty() }
    }

    /// The snapshot kept for `account`, if one was ever written.
    pub open spec fn snapshot_of(self, account: AccountId) -> Option<Balance> {
        if self.snapshots.contains_key(account) {
            Some(self.snapshots[account])
        } else {
            None
        }
    }

    /// The store with `value` in the scalar slot.
    pub open spec fn with_scalar(self, value: u32) -> StoreState {
        StoreState { scalar: value, snapshots: self.snapshots }
    }

    /// The store with `amount` as the snapshot of `account`.
    pub open spec fn with_snapshot(self, account: AccountId, amount: Balance) -> StoreState {
        StoreState { scalar: self.scalar, snapshots: self.snapshots.insert(account, amount) }
    }
}

/// Two independent regions: a single 32-bit slot, and a table from account
/// to the balance that was mirrored for it. A write replaces what was there;
/// no history is kept.
pub struct StateStore {
    scalar: u32,
    snapshots: HashMap<AccountId, Balance>,
}

impl View for StateStore {
    type V = StoreState;

    closed spec fn view(&self) -> StoreState {
        StoreState { scalar: self.scalar, snapshots: self.snapshots@ }
    }
}

impl StateStore {
    /// A store in its initial state.
    pub fn new() -> (store: Self)
        ensures
            store@ == StoreState::empty(),
    {
        StateStore { scalar: 0, snapshots: HashMap::new() }
    }

    /// The value in the scalar slot.
    pub fn read_scalar(&self) -> (v: u32)
        ensures
            v == self@.scalar,
    {
        self.scalar
    }

    /// Replaces the value in the scalar slot; the snapshots are not touched.
    pub fn write_scalar(&mut self, value: u32)
        ensures
            final(self)@ == old(self)@.with_scalar(value),
    {
        self.scalar = value;
    }

    /// The snapshot kept for `account`, or `None` if none was ever written.
    pub fn read_snapshot(&self, account: AccountId) -> (r: Option<Balance>)
        ensures
            r == self@.snapshot_of(account),
    {
        match self.snapshots.get(&account) {
            Some(amount) => Some(*amount),
            None => None,
        }
    }

    /// Sets the snapshot of `account` to `amount`, whether or not it had one.
    /// The scalar slot and every other account's snapshot stay as they are.
    pub fn write_snapshot(&mut self, account: AccountId, amount: Balance)
        ensures
            final(self)@ == old(self)@.with_snapshot(account, amount),
    {
        self.snapshots.insert(account, amount);
    }
}

} // verus!
