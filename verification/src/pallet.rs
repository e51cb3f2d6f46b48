//! The transition handler: the module's one mutating operation.
use vstd::prelude::*;
use crate::currency::Config;
use crate::events::{Event, EventLog};
use crate::laws::{lemma_genesis_consistent, lemma_submit_consistent};
use crate::model::{Ledger, Submission};
use crate::origin::{ensure_signed, signer, AccountId, Balance, RawOrigin, TransitionError};
use crate::store::StateStore;

verus! {

/// The module: a state store and the log of what was done to it. Only an
/// accepted submission changes either, and it changes both.
pub struct Pallet {
    store: StateStore,
    log: EventLog,
}

impl View for Pallet {
    type V = Ledger;

    closed spec fn view(&self) -> Ledger {
        Ledger { store: self.store@, events: self.log@ }
    }
}

/// What `set_value` returns for a submission: success if it is signed.
pub open spec fn outcome(origin: RawOrigin) -> Result<(), TransitionError> {
    match signer(origin) {
        Some(_) => Ok(()),
        None => Err(TransitionError::Unauthenticated),
    }
}

/// A call of `set_value` as a submission: the origin and the value as they
/// are given, and for a signed call what `currency` answers for the signer.
pub open spec fn submission<C: Config>(currency: &C, origin: RawOrigin, value: u32) -> Submission {
    Submission {
        origin,
        value,
        reserved: match signer(origin) {
            Some(who) => currency.reserved(who),
            None => 0,
        },
    }
}

impl Pallet {
    /// The module at system start.
    pub fn new() -> (pallet: Self)
        ensures
            pallet@ == Ledger::genesis(),
            pallet@.consistent(),
    {
        proof {
            lemma_genesis_consistent();
        }
        Pallet { store: StateStore::new(), log: EventLog::new() }
    }

    /// Stores `value` on behalf of the account that signed `origin` and
    /// mirrors that account's reserved balance, as `currency` gives it now.
    ///
    /// A signed call succeeds: it emits one event, then writes the slot and
    /// the caller's snapshot. Any other origin is `Unauthenticated`, and then
    /// neither the store nor the log changes.
    pub fn set_value<C: Config>(&mut self, currency: &C, origin: RawOrigin, value: u32) -> (r: Result<
        (),
        TransitionError,
    >)
        ensures
            r == outcome(origin),
            final(self)@ == old(self)@.submit(submission(currency, origin, value)),
            signer(origin) matches Some(who) ==> {
                &&& final(self)@.store.scalar == value
                &&& final(self)@.store.snapshot_of(who) == Some(currency.reserved(who))
                &&& final(self)@.events == old(self)@.events.push(
                    Event::HelloValueStored(value, who),
                )
            },
            signer(origin) is None ==> final(self)@ == old(self)@,
            old(self)@.consistent() ==> final(self)@.consistent(),
    {
        let caller = match ensure_signed(origin) {
            Ok(who) => who,
            Err(e) => {
                return Err(e);
            },
        };
        let reserved = currency.reserved_balance(caller);
        self.record(caller, value, reserved);
        Ok(())
    }

    /// What follows authentication and the oracle's answer: emits the event
    /// for `(value, who)`, then writes `value` to the slot and `reserved` as
    /// the snapshot of `who`.
    pub fn record(&mut self, who: AccountId, value: u32, reserved: Balance)
        ensures
            final(self)@ == old(self)@.record(who, value, reserved),
            old(self)@.consistent() ==> final(self)@.consistent(),
    {
        proof {
            if old(self)@.consistent() {
                lemma_submit_consistent(
                    old(self)@,
                    Submission { origin: RawOrigin::Signed(who), value, reserved },
                );
            }
        }
        self.log.append(Event::HelloValueStored(value, who));
        self.store.write_scalar(value);
        self.store.write_snapshot(who, reserved);
    }

    /// The value in the scalar slot.
    pub fn read_scalar(&self) -> (v: u32)
        ensures
            v == self@.store.scalar,
    {
        self.store.read_scalar()
    }

    /// The snapshot kept for `account`, or `None` if it never submitted.
    pub fn read_snapshot(&self, account: AccountId) -> (r: Option<Balance>)
        ensures
            r == self@.store.snapshot_of(account),
    {
        self.store.read_snapshot(account)
    }

    /// Every event emitted so far, in emission order.
    pub fn iterate(&self) -> (out: Vec<Event>)
        ensures
            out@ == self@.events,
    {
        self.log.iterate()
    }
}

} // verus!
