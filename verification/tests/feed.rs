use oracle_feed::Error;
use oracle_feed::Event;
use oracle_feed::Origin;
use oracle_feed::Pallet;
use oracle_feed::Weight;

/// Runs the idle hook once at each height after `from`, up to `to`.
fn run_to_block(pallet: &mut Pallet, from: u64, to: u64) {
    let mut block = from;
    while block < to {
        block += 1;
        pallet.on_idle(block, Weight::zero());
    }
}

#[test]
fn set_oracle_works() {
    let mut pallet = Pallet::new();

    // Call set_oracle as root
    let res = pallet.set_oracle(Origin::Root, 5);
    assert!(res.is_ok());

    // Check that the oracle is set
    assert_eq!(pallet.oracle(), Some(5));

    // Check event was emitted
    assert_eq!(res, Ok(Event::OracleUpdated { new_oracle: 5 }));
}

#[test]
fn submit_event_works() {
    let mut pallet = Pallet::new();

    // Set an oracle
    assert!(pallet.set_oracle(Origin::Root, 5).is_ok());

    // Send some data as the oracle
    assert!(pallet.submit_event(Origin::Signed(5), vec![1, 2, 3, 4], 1).is_ok());

    // Check that the oracle_event is stored
    assert_eq!(pallet.oracle_events().get(0).unwrap().data, vec![1, 2, 3, 4]);

    // Add another event
    let last = pallet.submit_event(Origin::Signed(5), vec![20, 30], 1);
    assert!(last.is_ok());

    // Check that the oracle_event is stored
    assert_eq!(pallet.oracle_events().get(1).unwrap().data, vec![20, 30]);

    // Check event was emitted
    assert_eq!(last, Ok(Event::EventSubmitted { oracle: 5, timestamp: 1 }));
}

#[test]
fn submit_event_oracle_not_set() {
    let mut pallet = Pallet::new();

    // Send some data as the oracle
    // This should fail because the oracle has not been set
    assert_eq!(
        pallet.submit_event(Origin::Signed(5), vec![1, 2, 3, 4], 1),
        Err(Error::OracleNotSet)
    );
    assert_eq!(pallet.oracle(), None);
    assert_eq!(pallet.oracle_events().len(), 0);
}

#[test]
fn submit_event_not_current_oracle() {
    let mut pallet = Pallet::new();

    // Set an oracle
    assert!(pallet.set_oracle(Origin::Root, 10).is_ok());

    // Send some data as a different account than the oracle
    // This should fail
    assert_eq!(
        pallet.submit_event(Origin::Signed(5), vec![1, 2, 3, 4], 1),
        Err(Error::NotCurrentOracle)
    );
    assert_eq!(pallet.oracle(), Some(10));
    assert_eq!(pallet.oracle_events().len(), 0);
}

#[test]
fn submit_event_vec_too_big() {
    let mut pallet = Pallet::new();

    // Set an oracle
    assert!(pallet.set_oracle(Origin::Root, 5).is_ok());

    // Send some data that is bigger than 1024 bytes
    // This should fail
    assert_eq!(
        pallet.submit_event(Origin::Signed(5), Vec::from([0; 1025]), 1),
        Err(Error::VecTooBig)
    );
    assert_eq!(pallet.oracle(), Some(5));
    assert_eq!(pallet.oracle_events().len(), 0);
}

#[test]
fn submit_event_vec_oracle_events_overflow() {
    let mut pallet = Pallet::new();

    // Set an oracle
    assert!(pallet.set_oracle(Origin::Root, 5).is_ok());

    // Send 1000 oracle events
    for _ in 0..1000 {
        assert!(pallet.submit_event(Origin::Signed(5), vec![1, 2, 3, 4], 1).is_ok());
    }

    // Send 1 more oracle event
    // This should fail because the log is full
    assert_eq!(
        pallet.submit_event(Origin::Signed(5), vec![1, 2, 3, 4], 1),
        Err(Error::OracleEventsOverflow)
    );
    assert_eq!(pallet.oracle_events().len(), 1000);
}

#[test]
fn on_idle_works() {
    let mut pallet = Pallet::new();

    // Set an oracle
    assert!(pallet.set_oracle(Origin::Root, 5).is_ok());

    // Send some data as the oracle
    assert!(pallet.submit_event(Origin::Signed(5), vec![1, 2, 3, 4], 1).is_ok());

    // Check that the oracle_event is stored
    assert_eq!(pallet.oracle_events().get(0).unwrap().data, vec![1, 2, 3, 4]);

    // Advance the block number
    run_to_block(&mut pallet, 1, 10);

    // Check that the oracle_event is still stored because it is less than 600 blocks old
    assert_eq!(pallet.oracle_events().get(0).unwrap().data, vec![1, 2, 3, 4]);

    // Add another event
    assert!(pallet.submit_event(Origin::Signed(5), vec![10, 20], 10).is_ok());

    // Advance the block number
    run_to_block(&mut pallet, 10, 602);

    // Check that the first oracle_event is removed because it is more than 600 blocks old
    // Note that the second oracle_event is still stored
    // Now the second oracle_event is at index 0
    assert_eq!(pallet.oracle_events().get(0).unwrap().data, vec![10, 20]);
}
