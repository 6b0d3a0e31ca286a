use shellfish_tracking::batch::{Counter, Identity, ShellfishBatch};
use shellfish_tracking::errors::CustomError;
use shellfish_tracking::ledger::ShellfishLedger;

fn alice() -> Identity {
    Identity { key_hi: 0, key_lo: 1 }
}

fn bob() -> Identity {
    Identity { key_hi: 0, key_lo: 2 }
}

fn ready_ledger() -> ShellfishLedger {
    let mut ledger = ShellfishLedger::new();
    assert_eq!(ledger.initialize_counter(), Ok(()));
    ledger
}

fn harvest_n(ledger: &mut ShellfishLedger, n: u64, caller: Identity) {
    for i in 0..n {
        let id = ledger
            .harvest_shellfish(
                "oyster".to_string(),
                "Alice".to_string(),
                "BayX".to_string(),
                1_700_000_000 + i as i64,
                caller,
            )
            .expect("harvest should succeed");
        assert_eq!(id, i);
    }
}

#[test]
fn scenario_a_first_two_ids_are_zero_and_one() {
    let mut ledger = ShellfishLedger::new();
    assert_eq!(ledger.initialize_counter(), Ok(()));
    let first = ledger.harvest_shellfish(
        "oyster".to_string(),
        "Alice".to_string(),
        "BayX".to_string(),
        1_700_000_000,
        alice(),
    );
    assert_eq!(first, Ok(0));
    let second = ledger.harvest_shellfish(
        "oyster".to_string(),
        "Alice".to_string(),
        "BayX".to_string(),
        1_700_000_001,
        alice(),
    );
    assert_eq!(second, Ok(1));
}

#[test]
fn scenario_b_unauthorized_then_authorized_process() {
    let mut ledger = ready_ledger();
    harvest_n(&mut ledger, 6, alice());
    assert_eq!(
        ledger.process_shellfish(5, bob(), "stolen".to_string()),
        Err(CustomError::Unauthorized)
    );
    assert_eq!(
        ledger.process_shellfish(5, alice(), "cleaned".to_string()),
        Ok(())
    );
    let batch = ledger.get_batch(5).expect("batch 5 should exist");
    assert!(batch.is_processed);
    assert_eq!(batch.processing_details, "cleaned");
}

#[test]
fn scenario_c_distribute_once_then_already_distributed() {
    let mut ledger = ready_ledger();
    harvest_n(&mut ledger, 6, alice());
    assert_eq!(
        ledger.process_shellfish(5, alice(), "cleaned".to_string()),
        Ok(())
    );
    assert_eq!(
        ledger.distribute_shellfish(5, alice(), "shipped".to_string()),
        Ok(())
    );
    assert_eq!(
        ledger.distribute_shellfish(5, alice(), "shipped again".to_string()),
        Err(CustomError::AlreadyDistributed)
    );
    let batch = ledger.get_batch(5).expect("batch 5 should exist");
    assert!(batch.is_distributed);
    assert_eq!(batch.distribution_details, "shipped");
}

#[test]
fn scenario_d_distribute_before_process_fails() {
    let mut ledger = ready_ledger();
    harvest_n(&mut ledger, 8, alice());
    assert_eq!(
        ledger.distribute_shellfish(7, alice(), "premature".to_string()),
        Err(CustomError::NotProcessedYet)
    );
    let batch = ledger.get_batch(7).expect("batch 7 should exist");
    assert!(!batch.is_processed);
    assert!(!batch.is_distributed);
}

#[test]
fn harvested_ids_are_exactly_zero_to_n_minus_one() {
    let mut ledger = ready_ledger();
    let n: u64 = 25;
    harvest_n(&mut ledger, n, alice());
    assert_eq!(ledger.batch_count(), n);
    for id in 0..n {
        let batch = ledger.get_batch(id).expect("every id below n should exist");
        assert_eq!(batch.batch_id, id);
    }
    assert!(ledger.get_batch(n).is_none());
}

#[test]
fn process_succeeds_at_most_once() {
    let mut ledger = ready_ledger();
    harvest_n(&mut ledger, 1, alice());
    assert_eq!(
        ledger.process_shellfish(0, alice(), "first".to_string()),
        Ok(())
    );
    assert_eq!(
        ledger.process_shellfish(0, alice(), "second".to_string()),
        Err(CustomError::AlreadyProcessed)
    );
    assert_eq!(
        ledger.process_shellfish(0, bob(), "third".to_string()),
        Err(CustomError::AlreadyProcessed)
    );
    let batch = ledger.get_batch(0).expect("batch 0 should exist");
    assert_eq!(batch.processing_details, "first");
}

#[test]
fn unauthorized_caller_never_succeeds_in_any_state() {
    let mut ledger = ready_ledger();
    harvest_n(&mut ledger, 1, alice());
    assert_eq!(
        ledger.distribute_shellfish(0, bob(), "d".to_string()),
        Err(CustomError::NotProcessedYet)
    );
    assert_eq!(
        ledger.process_shellfish(0, bob(), "p".to_string()),
        Err(CustomError::Unauthorized)
    );
    assert_eq!(ledger.process_shellfish(0, alice(), "p".to_string()), Ok(()));
    assert_eq!(
        ledger.distribute_shellfish(0, bob(), "d".to_string()),
        Err(CustomError::Unauthorized)
    );
    assert_eq!(
        ledger.process_shellfish(0, bob(), "p".to_string()),
        Err(CustomError::AlreadyProcessed)
    );
    assert_eq!(
        ledger.distribute_shellfish(0, alice(), "d".to_string()),
        Ok(())
    );
    assert_eq!(
        ledger.distribute_shellfish(0, bob(), "d".to_string()),
        Err(CustomError::AlreadyDistributed)
    );
    let batch = ledger.get_batch(0).expect("batch 0 should exist");
    assert_eq!(batch.authority, alice());
    assert_eq!(batch.processing_details, "p");
    assert_eq!(batch.distribution_details, "d");
}

#[test]
fn initialize_twice_fails() {
    let mut ledger = ShellfishLedger::new();
    assert_eq!(ledger.initialize_counter(), Ok(()));
    assert_eq!(
        ledger.initialize_counter(),
        Err(CustomError::AlreadyInitialized)
    );
}

#[test]
fn harvest_before_initialize_fails() {
    let mut ledger = ShellfishLedger::new();
    let r = ledger.harvest_shellfish(
        "oyster".to_string(),
        "Alice".to_string(),
        "BayX".to_string(),
        1_700_000_000,
        alice(),
    );
    assert_eq!(r, Err(CustomError::CounterUnavailable));
    assert_eq!(ledger.batch_count(), 0);
}

#[test]
fn unknown_batch_id_is_not_found() {
    let mut ledger = ready_ledger();
    harvest_n(&mut ledger, 2, alice());
    assert_eq!(
        ledger.process_shellfish(2, alice(), "p".to_string()),
        Err(CustomError::NotFound)
    );
    assert_eq!(
        ledger.distribute_shellfish(9, alice(), "d".to_string()),
        Err(CustomError::NotFound)
    );
    assert!(ledger.get_batch(2).is_none());
}

#[test]
fn harvest_rejects_over_long_fields() {
    let mut ledger = ready_ledger();
    let long51 = "x".repeat(51);
    let long101 = "x".repeat(101);
    let ok50 = "x".repeat(50);
    let ok100 = "x".repeat(100);
    assert_eq!(
        ledger.harvest_shellfish(
            long51.clone(),
            "Alice".to_string(),
            "BayX".to_string(),
            0,
            alice()
        ),
        Err(CustomError::FieldTooLong)
    );
    assert_eq!(
        ledger.harvest_shellfish(
            "oyster".to_string(),
            long51,
            "BayX".to_string(),
            0,
            alice()
        ),
        Err(CustomError::FieldTooLong)
    );
    assert_eq!(
        ledger.harvest_shellfish(
            "oyster".to_string(),
            "Alice".to_string(),
            long101,
            0,
            alice()
        ),
        Err(CustomError::FieldTooLong)
    );
    assert_eq!(ledger.batch_count(), 0);
    assert_eq!(
        ledger.harvest_shellfish(ok50.clone(), ok50, ok100, 0, alice()),
        Ok(0)
    );
}

#[test]
fn details_at_and_over_the_bound() {
    let mut ledger = ready_ledger();
    harvest_n(&mut ledger, 2, alice());
    let long201 = "x".repeat(201);
    let ok200 = "x".repeat(200);
    assert_eq!(
        ledger.process_shellfish(0, alice(), long201.clone()),
        Err(CustomError::FieldTooLong)
    );
    let batch = ledger.get_batch(0).expect("batch 0 should exist");
    assert!(!batch.is_processed);
    assert_eq!(ledger.process_shellfish(0, alice(), ok200.clone()), Ok(()));
    assert_eq!(
        ledger.distribute_shellfish(0, alice(), long201),
        Err(CustomError::FieldTooLong)
    );
    assert_eq!(ledger.distribute_shellfish(0, alice(), ok200), Ok(()));
}

#[test]
fn harvest_records_all_fields() {
    let mut ledger = ready_ledger();
    let id = ledger
        .harvest_shellfish(
            "mussel".to_string(),
            "Carol".to_string(),
            "North cove".to_string(),
            1_234_567_890,
            alice(),
        )
        .expect("harvest should succeed");
    let batch = ledger.get_batch(id).expect("batch should exist");
    assert_eq!(batch.batch_id, 0);
    assert_eq!(batch.species, "mussel");
    assert_eq!(batch.harvester, "Carol");
    assert_eq!(batch.harvest_location, "North cove");
    assert_eq!(batch.harvest_time, 1_234_567_890);
    assert_eq!(batch.processing_details, "");
    assert_eq!(batch.distribution_details, "");
    assert!(!batch.is_processed);
    assert!(!batch.is_distributed);
    assert_eq!(batch.authority, alice());
}

#[test]
fn counter_allocates_sequentially_and_stops_at_the_end() {
    let mut counter = Counter::new();
    assert_eq!(counter.allocate_and_advance(), Ok(0));
    assert_eq!(counter.allocate_and_advance(), Ok(1));
    assert_eq!(counter.count, 2);
    let mut exhausted = Counter { count: u64::MAX };
    assert_eq!(
        exhausted.allocate_and_advance(),
        Err(CustomError::CounterUnavailable)
    );
    assert_eq!(exhausted.count, u64::MAX);
}

#[test]
fn batch_level_lifecycle_matches_ledger_semantics() {
    let mut counter = Counter::new();
    let mut batch = ShellfishBatch::harvest(
        &mut counter,
        "clam".to_string(),
        "Dana".to_string(),
        "South flats".to_string(),
        42,
        alice(),
    )
    .expect("harvest should succeed");
    assert_eq!(batch.batch_id, 0);
    assert_eq!(counter.count, 1);
    assert_eq!(
        batch.distribute(alice(), "d".to_string()),
        Err(CustomError::NotProcessedYet)
    );
    assert_eq!(
        batch.process(bob(), "p".to_string()),
        Err(CustomError::Unauthorized)
    );
    assert_eq!(batch.process(alice(), "p".to_string()), Ok(()));
    assert_eq!(
        batch.process(alice(), "again".to_string()),
        Err(CustomError::AlreadyProcessed)
    );
    assert_eq!(batch.distribute(alice(), "d".to_string()), Ok(()));
    assert_eq!(
        batch.distribute(alice(), "again".to_string()),
        Err(CustomError::AlreadyDistributed)
    );
    assert!(batch.is_processed && batch.is_distributed);
}

#[test]
fn failed_harvest_leaves_counter_unchanged() {
    let mut counter = Counter { count: 3 };
    let r = ShellfishBatch::harvest(
        &mut counter,
        "x".repeat(51),
        "Dana".to_string(),
        "South flats".to_string(),
        42,
        alice(),
    );
    assert!(matches!(r, Err(CustomError::FieldTooLong)));
    assert_eq!(counter.count, 3);
}
