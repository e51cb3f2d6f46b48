//! What holds of the module over whole histories of submissions.
use vstd::prelude::*;
use crate::events::Event;
use crate::model::{named_in, signed_by, Ledger, Submission};
use crate::origin::{signer, AccountId};

verus! {

/// The events that `calls` emit, in order: one for each signed submission,
/// none for the others.
pub open spec fn emitted(calls: Seq<Submission>) -> Seq<Event>
    decreases calls.len(),
{
    if calls.len() == 0 {
        Seq::empty()
    } else {
        match signer(calls.last().origin) {
            Some(who) => emitted(calls.drop_last()).push(calls.last().event_for(who)),
            None => emitted(calls.drop_last()),
        }
    }
}

/// Whether every submission in `calls` is signed.
pub open spec fn all_signed(calls: Seq<Submission>) -> bool {
    forall|i: int| 0 <= i < calls.len() ==> signer((#[trigger] calls[i]).origin).is_some()
}

/// After an accepted submission the slot holds the submitted value and the
/// signer's snapshot is what the oracle answered for it at that call.
pub proof fn lemma_accepted_is_readable(before: Ledger, call: Submission, who: AccountId)
    requires
        signer(call.origin) == Some(who),
    ensures
        before.submit(call).store.scalar == call.value,
        before.submit(call).store.snapshot_of(who) == Some(call.reserved),
{
}

/// A submission touches no snapshot but its signer's.
pub proof fn lemma_other_snapshots_kept(before: Ledger, call: Submission, other: AccountId)
    requires
        signer(call.origin) != Some(other),
    ensures
        before.submit(call).store.snapshot_of(other) == before.store.snapshot_of(other),
{
}

/// Over any history, the snapshot of an account that signed none of the
/// submissions is what it was before.
pub proof fn lemma_run_keeps_snapshot(before: Ledger, calls: Seq<Submission>, who: AccountId)
    requires
        !signed_by(calls, who),
    ensures
        before.run(calls).store.snapshot_of(who) == before.store.snapshot_of(who),
    decreases calls.len(),
{
    if calls.len() > 0 {
        let earlier = calls.drop_last();
        assert(!signed_by(earlier, who)) by {
            if signed_by(earlier, who) {
                let i = choose|i: int|
                    0 <= i < earlier.len() && signer((#[trigger] earlier[i]).origin) == Some(who);
                assert(calls[i] == earlier[i]);
            }
        }
        lemma_run_keeps_snapshot(before, earlier, who);
        lemma_other_snapshots_kept(before.run(earlier), calls.last(), who);
    }
}

/// An account that never submitted has no snapshot: from system start, and
/// whatever the others submitted.
pub proof fn lemma_never_submitted_is_absent(calls: Seq<Submission>, who: AccountId)
    requires
        !signed_by(calls, who),
    ensures
        Ledger::genesis().run(calls).store.snapshot_of(who).is_none(),
{
    lemma_run_keeps_snapshot(Ledger::genesis(), calls, who);
}

/// Two accepted submissions by one account leave the store as the second
/// alone would: nothing of the first value or balance is kept.
pub proof fn lemma_overwrite(before: Ledger, first: Submission, second: Submission, who: AccountId)
    requires
        signer(first.origin) == Some(who),
        signer(second.origin) == Some(who),
    ensures
        before.submit(first).submit(second).store == before.submit(second).store,
        before.submit(first).submit(second).store.scalar == second.value,
        before.submit(first).submit(second).store.snapshot_of(who) == Some(second.reserved),
{
    let twice = before.submit(first).submit(second).store;
    let once = before.submit(second).store;
    assert(twice.snapshots =~= once.snapshots);
}

/// A history adds to the log exactly the events it emits, behind what was
/// there, and in the order of the submissions.
pub proof fn lemma_run_appends_emitted(before: Ledger, calls: Seq<Submission>)
    ensures
        before.run(calls).events == before.events + emitted(calls),
    decreases calls.len(),
{
    if calls.len() > 0 {
        let earlier = calls.drop_last();
        lemma_run_appends_emitted(before, earlier);
        match signer(calls.last().origin) {
            Some(who) => {
                let e = calls.last().event_for(who);
                assert((before.events + emitted(earlier)).push(e) =~= before.events + emitted(
                    earlier,
                ).push(e));
            },
            None => {},
        }
    }
}

/// Where every submission is signed, each emits one event: the log of such
/// a history has the value and the signer of the i-th submission at place i.
pub proof fn lemma_emitted_matches_calls(calls: Seq<Submission>)
    requires
        all_signed(calls),
    ensures
        emitted(calls).len() == calls.len(),
        forall|i: int|
            0 <= i < calls.len() ==> (#[trigger] emitted(calls)[i]) == Event::HelloValueStored(
                calls[i].value,
                signer(calls[i].origin).unwrap(),
            ),
    decreases calls.len(),
{
    if calls.len() > 0 {
        let earlier = calls.drop_last();
        assert(all_signed(earlier)) by {
            assert forall|i: int| 0 <= i < earlier.len() implies signer(
                (#[trigger] earlier[i]).origin,
            ).is_some() by {
                assert(earlier[i] == calls[i]);
            }
        }
        lemma_emitted_matches_calls(earlier);
        assert forall|i: int| 0 <= i < calls.len() implies (#[trigger] emitted(calls)[i])
            == Event::HelloValueStored(calls[i].value, signer(calls[i].origin).unwrap()) by {
            if i < earlier.len() {
                assert(emitted(calls)[i] == emitted(earlier)[i]);
                assert(earlier[i] == calls[i]);
            }
        }
    }
}

/// From system start, a history of accepted submissions is read back from
/// the log in submission order.
pub proof fn lemma_event_order(calls: Seq<Submission>)
    requires
        all_signed(calls),
    ensures
        Ledger::genesis().run(calls).events.len() == calls.len(),
        forall|i: int|
            0 <= i < calls.len() ==> (#[trigger] Ledger::genesis().run(calls).events[i])
                == Event::HelloValueStored(calls[i].value, signer(calls[i].origin).unwrap()),
{
    lemma_run_appends_emitted(Ledger::genesis(), calls);
    lemma_emitted_matches_calls(calls);
}

/// A submission that fails authentication changes nothing: slot, snapshots
/// and log are what they were.
pub proof fn lemma_rejected_changes_nothing(before: Ledger, call: Submission)
    requires
        signer(call.origin).is_none(),
    ensures
        before.submit(call) == before,
{
}

/// At system start the store and the log agree.
pub proof fn lemma_genesis_consistent()
    ensures
        Ledger::genesis().consistent(),
{
}

/// A submission, accepted or not, keeps the store and the log in
/// agreement: every write to the store has its one event.
pub proof fn lemma_submit_consistent(before: Ledger, call: Submission)
    requires
        before.consistent(),
    ensures
        before.submit(call).consistent(),
{
    let after = before.submit(call);
    match signer(call.origin) {
        Some(signed) => {
            let last = after.events.len() - 1;
            assert(after.events[last].spec_account() == signed);
            assert forall|who: AccountId| after.store.snapshots.contains_key(who) <==> named_in(
                after.events,
                who,
            ) by {
                if named_in(before.events, who) {
                    let i = choose|i: int|
                        0 <= i < before.events.len() && (#[trigger] before.events[i]).spec_account()
                            == who;
                    assert(after.events[i] == before.events[i]);
                }
                if named_in(after.events, who) && who != signed {
                    let j = choose|j: int|
                        0 <= j < after.events.len() && (#[trigger] after.events[j]).spec_account()
                            == who;
                    assert(before.events[j] == after.events[j]);
                }
            }
        },
        None => {},
    }
}

/// Every state that a history reaches from a consistent one is consistent.
pub proof fn lemma_run_consistent(before: Ledger, calls: Seq<Submission>)
    requires
        before.consistent(),
    ensures
        before.run(calls).consistent(),
    decreases calls.len(),
{
    if calls.len() > 0 {
        lemma_run_consistent(before, calls.drop_last());
        lemma_submit_consistent(before.run(calls.drop_last()), calls.last());
    }
}

} // verus!
