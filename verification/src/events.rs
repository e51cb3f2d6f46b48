//! The event log: an append-only record of every accepted transition.
use vstd::prelude::*;
use crate::origin::AccountId;

verus! {

/// What the module announces to observers.
#[derive(Clone, Copy, Debug, PartialEq, Eq, Structural)]
pub enum Event {
    /// The given value was stored on behalf of the given account.
    HelloValueStored(u32, AccountId),
}

impl Event {
    /// The value that was stored.
    pub open spec fn spec_value(self) -> u32 {
        match self {
            Event::HelloValueStored(value, _) => value,
        }
    }

    /// The account that submitted it.
    pub open spec fn spec_account(self) -> AccountId {
        match self {
            Event::HelloValueStored(_, who) => who,
        }
    }

    /// The value that was stored.
    #[verifier::when_used_as_spec(spec_value)]
    pub fn value(self) -> (v: u32)
        ensures
            v == self.spec_value(),
    {
        match self {
            Event::HelloValueStored(value, _) => value,
        }
    }

    /// The account that submitted it.
    #[verifier::when_used_as_spec(spec_account)]
    pub fn account(self) -> (who: AccountId)
        ensures
            who == self.spec_account(),
    {
        match self {
            Event::HelloValueStored(_, who) => who,
        }
    }
}

/// Events in the order in which they were emitted. Entries are only ever
/// added at the end; none is changed or removed.
pub struct EventLog {
    entries: Vec<Event>,
}

impl View for EventLog {
    type V = Seq<Event>;

    closed spec fn view(&self) -> Seq<Event> {
        self.entries@
    }
}

impl EventLog {
    /// A log that holds nothing yet.
    pub fn new() -> (log: Self)
        ensures
            log@ == Seq::<Event>::empty(),
    {
        EventLog { entries: Vec::new() }
    }

    /// Adds `event` behind everything emitted so far.
    pub fn append(&mut self, event: Event)
        ensures
            final(self)@ == old(self)@.push(event),
    {
        self.entries.push(event);
    }

    /// How many events have been emitted.
    pub fn len(&self) -> (n: usize)
        ensures
            n == self@.len(),
    {
        self.entries.len()
    }

    /// The event at position `index` in emission order, if there are that many.
    pub fn get(&self, index: usize) -> (e: Option<Event>)
        ensures
            e == (if index < self@.len() {
                Some(self@[index as int])
            } else {
                None
            }),
    {
        if index < self.entries.len() {
            Some(self.entries[index])
        } else {
            None
        }
    }

    /// Every event emitted so far, oldest first. The log itself is left as
    /// it is, so it can be walked again from the start at any time.
    pub fn iterate(&self) -> (out: Vec<Event>)
        ensures
            out@ == self@,
    {
        let mut out: Vec<Event> = Vec::new();
        let mut i: usize = 0;
        while i < self.entries.len()
            invariant
                i <= self.entries.len(),
                out@ == self.entries@.subrange(0, i as int),
            decreases self.entries.len() - i,
        {
            out.push(self.entries[i]);
            i += 1;
        }
        out
    }
}

} // verus!
