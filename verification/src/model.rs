//! The module's state as plain mathematics, and what one submission does to it.
use vstd::prelude::*;
use crate::events::Event;
use crate::origin::{signer, AccountId, Balance, RawOrigin};
use crate::store::StoreState;

verus! {

/// Everything the module keeps: the store and the event log.
pub struct Ledger {
    /// The scalar slot and the balance snapshots.
    pub store: StoreState,
    /// The events emitted so far, oldest first.
    pub events: Seq<Event>,
}

/// One call of the module's operation as the host admits it: who calls, the
/// value they submit, and what the balance oracle answers for the caller at
/// that moment (of no account, if the call is not signed).
pub struct Submission {
    /// Where the call comes from.
    pub origin: RawOrigin,
    /// The value to store.
    pub value: u32,
    /// The oracle's answer for the caller when the call is made.
    pub reserved: Balance,
}

impl Submission {
    /// The event that this submission emits once it is accepted by `who`.
    pub open spec fn event_for(self, who: AccountId) -> Event {
        Event::HelloValueStored(self.value, who)
    }
}

impl Ledger {
    /// The state at system start: slot at zero, no snapshot, no event.
    pub open spec fn genesis() -> Ledger {
        Ledger { store: StoreState::empty(), events: Seq::empty() }
    }

    /// The state after account `who` has had `value` accepted while the
    /// oracle answered `reserved` for it: one more event, the value in the
    /// slot, and the answer as the snapshot of `who`.
    pub open spec fn record(self, who: AccountId, value: u32, reserved: Balance) -> Ledger {
        Ledger {
            store: self.store.with_scalar(value).with_snapshot(who, reserved),
            events: self.events.push(Event::HelloValueStored(value, who)),
        }
    }

    /// The state after one submission: recorded if a signer stands behind
    /// it, and otherwise exactly the state before.
    pub open spec fn submit(self, call: Submission) -> Ledger {
        match signer(call.origin) {
            Some(who) => self.record(who, call.value, call.reserved),
            None => self,
        }
    }

    /// The state after the submissions `calls`, taken in order.
    pub open spec fn run(self, calls: Seq<Submission>) -> Ledger
        decreases calls.len(),
    {
        if calls.len() == 0 {
            self
        } else {
            self.run(calls.drop_last()).submit(calls.last())
        }
    }

    /// The store and the log agree: the slot holds the value of the newest
    /// event (zero while there is none), and an account has a snapshot
    /// exactly if some event names it.
    pub open spec fn consistent(self) -> bool {
        &&& self.store.scalar == (if self.events.len() == 0 {
            0u32
        } else {
            self.events.last().spec_value()
        })
        &&& forall|who: AccountId|
            self.store.snapshots.contains_key(who) <==> named_in(self.events, who)
    }
}

/// Whether some event in `events` was emitted for `who`.
pub open spec fn named_in(events: Seq<Event>, who: AccountId) -> bool {
    exists|i: int| 0 <= i < events.len() && (#[trigger] events[i]).spec_account() == who
}

/// Whether `who` is the signer of some submission in `calls`.
pub open spec fn signed_by(calls: Seq<Submission>, who: AccountId) -> bool {
    exists|i: int| 0 <= i < calls.len() && signer((#[trigger] calls[i]).origin) == Some(who)
}

} // verus!
