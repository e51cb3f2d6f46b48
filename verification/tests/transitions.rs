use hello_pallet::{Config, Event, Pallet, RawOrigin, Reserves, TransitionError};

const ACCOUNT_A: u64 = 0xA11CE;
const ACCOUNT_B: u64 = 0xB0B;

fn ledger_with(entries: &[(u64, u128)]) -> Reserves {
    let mut ledger = Reserves::new();
    for (who, amount) in entries {
        ledger.set_reserved(*who, *amount);
    }
    ledger
}

#[test]
fn fresh_module_is_at_its_defaults() {
    let pallet = Pallet::new();
    assert_eq!(pallet.read_scalar(), 0);
    assert_eq!(pallet.read_snapshot(ACCOUNT_A), None);
    assert_eq!(pallet.read_snapshot(0), None);
    assert!(pallet.iterate().is_empty());
}

#[test]
fn signed_submission_is_stored_mirrored_and_announced() {
    let ledger = ledger_with(&[(ACCOUNT_A, 100)]);
    let mut pallet = Pallet::new();
    assert_eq!(pallet.set_value(&ledger, RawOrigin::Signed(ACCOUNT_A), 42), Ok(()));
    assert_eq!(pallet.read_scalar(), 42);
    assert_eq!(pallet.read_snapshot(ACCOUNT_A), Some(100));
    assert_eq!(pallet.iterate(), vec![Event::HelloValueStored(42, ACCOUNT_A)]);
}

#[test]
fn unauthenticated_submission_changes_nothing() {
    let ledger = ledger_with(&[(ACCOUNT_A, 100), (ACCOUNT_B, 55)]);
    let mut pallet = Pallet::new();
    assert_eq!(pallet.set_value(&ledger, RawOrigin::Signed(ACCOUNT_A), 42), Ok(()));

    assert_eq!(
        pallet.set_value(&ledger, RawOrigin::Unsigned, 7),
        Err(TransitionError::Unauthenticated)
    );
    assert_eq!(pallet.read_scalar(), 42);
    assert_eq!(pallet.read_snapshot(ACCOUNT_A), Some(100));
    assert_eq!(pallet.read_snapshot(ACCOUNT_B), None);
    assert_eq!(pallet.iterate().len(), 1);
    assert_eq!(pallet.iterate(), vec![Event::HelloValueStored(42, ACCOUNT_A)]);
}

#[test]
fn root_origin_is_not_an_account() {
    let ledger = ledger_with(&[(ACCOUNT_A, 100)]);
    let mut pallet = Pallet::new();
    assert_eq!(
        pallet.set_value(&ledger, RawOrigin::Root, 9),
        Err(TransitionError::Unauthenticated)
    );
    assert_eq!(pallet.read_scalar(), 0);
    assert_eq!(pallet.read_snapshot(ACCOUNT_A), None);
    assert!(pallet.iterate().is_empty());
}

#[test]
fn rejection_on_a_fresh_module_leaves_the_defaults() {
    let ledger = Reserves::new();
    let mut pallet = Pallet::new();
    assert_eq!(
        pallet.set_value(&ledger, RawOrigin::Unsigned, u32::MAX),
        Err(TransitionError::Unauthenticated)
    );
    assert_eq!(pallet.read_scalar(), 0);
    assert!(pallet.iterate().is_empty());
}

#[test]
fn second_submission_overwrites_the_first() {
    let mut ledger = ledger_with(&[(ACCOUNT_A, 100)]);
    let mut pallet = Pallet::new();
    assert_eq!(pallet.set_value(&ledger, RawOrigin::Signed(ACCOUNT_A), 1), Ok(()));
    ledger.set_reserved(ACCOUNT_A, 250);
    assert_eq!(pallet.set_value(&ledger, RawOrigin::Signed(ACCOUNT_A), 2), Ok(()));

    assert_eq!(pallet.read_scalar(), 2);
    assert_eq!(pallet.read_snapshot(ACCOUNT_A), Some(250));
    assert_eq!(
        pallet.iterate(),
        vec![Event::HelloValueStored(1, ACCOUNT_A), Event::HelloValueStored(2, ACCOUNT_A)]
    );
}

#[test]
fn snapshot_is_a_mirror_taken_at_the_call() {
    let mut ledger = ledger_with(&[(ACCOUNT_A, 100)]);
    let mut pallet = Pallet::new();
    assert_eq!(pallet.set_value(&ledger, RawOrigin::Signed(ACCOUNT_A), 5), Ok(()));
    ledger.set_reserved(ACCOUNT_A, 999);
    assert_eq!(ledger.reserved_balance(ACCOUNT_A), 999);
    assert_eq!(pallet.read_snapshot(ACCOUNT_A), Some(100));
}

#[test]
fn account_without_reservation_gets_a_zero_snapshot() {
    let ledger = Reserves::new();
    let mut pallet = Pallet::new();
    assert_eq!(pallet.set_value(&ledger, RawOrigin::Signed(ACCOUNT_B), 3), Ok(()));
    assert_eq!(pallet.read_snapshot(ACCOUNT_B), Some(0));
    assert_eq!(pallet.read_snapshot(ACCOUNT_A), None);
}

#[test]
fn account_that_never_submitted_has_no_snapshot() {
    let ledger = ledger_with(&[(ACCOUNT_A, 100), (ACCOUNT_B, 55), (3, 1)]);
    let mut pallet = Pallet::new();
    assert_eq!(pallet.set_value(&ledger, RawOrigin::Signed(ACCOUNT_A), 10), Ok(()));
    assert_eq!(pallet.set_value(&ledger, RawOrigin::Signed(3), 11), Ok(()));
    assert_eq!(pallet.read_snapshot(ACCOUNT_B), None);
    assert_eq!(pallet.read_snapshot(ACCOUNT_A), Some(100));
    assert_eq!(pallet.read_snapshot(3), Some(1));
}

#[test]
fn one_account_does_not_disturb_another() {
    let mut ledger = ledger_with(&[(ACCOUNT_A, 100), (ACCOUNT_B, 55)]);
    let mut pallet = Pallet::new();
    assert_eq!(pallet.set_value(&ledger, RawOrigin::Signed(ACCOUNT_A), 10), Ok(()));
    ledger.set_reserved(ACCOUNT_A, 1);
    assert_eq!(pallet.set_value(&ledger, RawOrigin::Signed(ACCOUNT_B), 20), Ok(()));
    assert_eq!(pallet.read_scalar(), 20);
    assert_eq!(pallet.read_snapshot(ACCOUNT_A), Some(100));
    assert_eq!(pallet.read_snapshot(ACCOUNT_B), Some(55));
}

#[test]
fn events_come_out_in_submission_order() {
    let ledger = ledger_with(&[(1, 10), (2, 20), (3, 30)]);
    let mut pallet = Pallet::new();
    assert_eq!(pallet.set_value(&ledger, RawOrigin::Signed(3), 300), Ok(()));
    assert_eq!(pallet.set_value(&ledger, RawOrigin::Signed(1), 100), Ok(()));
    assert_eq!(
        pallet.set_value(&ledger, RawOrigin::Root, 555),
        Err(TransitionError::Unauthenticated)
    );
    assert_eq!(pallet.set_value(&ledger, RawOrigin::Signed(2), 200), Ok(()));
    assert_eq!(pallet.set_value(&ledger, RawOrigin::Signed(1), 101), Ok(()));

    let expected = vec![
        Event::HelloValueStored(300, 3),
        Event::HelloValueStored(100, 1),
        Event::HelloValueStored(200, 2),
        Event::HelloValueStored(101, 1),
    ];
    assert_eq!(pallet.iterate(), expected);
    assert_eq!(pallet.iterate(), expected);
    assert_eq!(pallet.read_scalar(), 101);
}

#[test]
fn slot_follows_the_newest_event() {
    let ledger = Reserves::new();
    let mut pallet = Pallet::new();
    for value in [7u32, 0, u32::MAX, 42] {
        assert_eq!(pallet.set_value(&ledger, RawOrigin::Signed(ACCOUNT_A), value), Ok(()));
        let events = pallet.iterate();
        assert_eq!(events.last().map(|e| e.value()), Some(pallet.read_scalar()));
        assert_eq!(pallet.read_scalar(), value);
    }
    assert_eq!(pallet.iterate().len(), 4);
}

#[test]
fn extreme_values_are_stored_as_they_are() {
    let ledger = ledger_with(&[(u64::MAX, u128::MAX)]);
    let mut pallet = Pallet::new();
    assert_eq!(pallet.set_value(&ledger, RawOrigin::Signed(u64::MAX), u32::MAX), Ok(()));
    assert_eq!(pallet.read_scalar(), u32::MAX);
    assert_eq!(pallet.read_snapshot(u64::MAX), Some(u128::MAX));
    assert_eq!(pallet.iterate(), vec![Event::HelloValueStored(u32::MAX, u64::MAX)]);
}

#[test]
fn record_writes_what_it_is_given() {
    let mut pallet = Pallet::new();
    pallet.record(ACCOUNT_B, 8, 64);
    assert_eq!(pallet.read_scalar(), 8);
    assert_eq!(pallet.read_snapshot(ACCOUNT_B), Some(64));
    assert_eq!(pallet.iterate(), vec![Event::HelloValueStored(8, ACCOUNT_B)]);
}
