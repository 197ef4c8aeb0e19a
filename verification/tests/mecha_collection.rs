use mecha_collection::mecha::{Mecha, MechaError, MechaRawData};
use mecha_collection::mecha_collection::CachedMechaCollection;
use mecha_collection::mock_backend_function::MockBackend;

fn setup_mock() -> CachedMechaCollection<MockBackend> {
    let mut backend = MockBackend::new();
    for i in 0..9 {
        backend.generate_new_mecha(format!("{}", i));
    }
    CachedMechaCollection::new(backend)
}

#[test]
fn test_mock_cache() {
    let mut collection = setup_mock();

    collection.load_mecha_from_backend(0).unwrap();
    assert_eq!(collection.cached_count(), 5);

    collection.load_mecha_from_backend(5).unwrap();
    assert_eq!(collection.cached_count(), 9);

    loop {
        match collection.next() {
            Ok(Some(mecha)) => {
                println!("{}", mecha.name);
            }
            Ok(None) => break,
            Err(_) => panic!("iteration failed"),
        }
    }
}

#[test]
fn produces_all_records_in_order_then_ends() {
    let mut collection = setup_mock();
    let mut names: Vec<String> = Vec::new();
    loop {
        match collection.next() {
            Ok(Some(mecha)) => names.push(mecha.name),
            Ok(None) => break,
            Err(_) => panic!("iteration failed"),
        }
    }
    let expected: Vec<String> = (0..9).map(|i| format!("{}", i)).collect();
    assert_eq!(names, expected);
    // once exhausted, the accessor stays exhausted
    assert!(matches!(collection.next(), Ok(None)));
    assert!(matches!(collection.next(), Ok(None)));
    assert_eq!(collection.cached_count(), 9);
}

#[test]
fn empty_source_signals_end_immediately() {
    let backend = MockBackend::new();
    let mut collection = CachedMechaCollection::new(backend);
    assert!(matches!(collection.next(), Ok(None)));
    assert!(matches!(collection.next(), Ok(None)));
    assert_eq!(collection.cached_count(), 0);
    assert_eq!(collection.observed_total_count(), 0);
}

#[test]
fn failing_position_fails_refill_keeping_earlier_records() {
    let mut backend = MockBackend::new();
    for i in 0..3 {
        backend.generate_new_mecha(format!("{}", i));
    }
    backend.generate_unavailable_position();
    backend.generate_new_mecha(String::from("4"));
    backend.generate_new_mecha(String::from("5"));

    let mut collection = CachedMechaCollection::new(backend);
    let outcome = collection.load_mecha_from_backend(0);
    assert_eq!(outcome, Err(MechaError::SourceFailure));
    // the positions before the failing one stay cached
    assert_eq!(collection.cached_count(), 3);
}

#[test]
fn malformed_raw_data_fails_refill() {
    let mut backend = MockBackend::new();
    backend.generate_new_mecha(String::from("alpha"));
    backend.generate_new_mecha(String::new());

    let mut collection = CachedMechaCollection::new(backend);
    let outcome = collection.load_mecha_from_backend(0);
    assert_eq!(outcome, Err(MechaError::MalformedData));
    assert_eq!(collection.cached_count(), 1);
}

#[test]
fn construction_rejects_empty_name_only() {
    let bad = Mecha::new_from_blockchain(MechaRawData { name: String::new() });
    assert_eq!(bad.map(|m| m.name), Err(MechaError::MalformedData));

    let good = Mecha::new_from_blockchain(MechaRawData {
        name: String::from("gamma"),
    });
    assert_eq!(good.map(|m| m.name), Ok(String::from("gamma")));
}

#[test]
fn error_during_production_propagates_without_advancing() {
    let mut backend = MockBackend::new();
    backend.generate_unavailable_position();
    let mut collection = CachedMechaCollection::new(backend);
    assert_eq!(collection.next().map(|o| o.map(|m| m.name)), Err(MechaError::SourceFailure));
    assert_eq!(collection.cached_count(), 0);
}

#[test]
fn refill_appends_min_of_batch_and_remaining() {
    let mut backend = MockBackend::new();
    for i in 0..3 {
        backend.generate_new_mecha(format!("{}", i));
    }
    let mut collection = CachedMechaCollection::with_batch_size(backend, 2);

    collection.load_mecha_from_backend(0).unwrap();
    assert_eq!(collection.cached_count(), 2);

    collection.load_mecha_from_backend(2).unwrap();
    // capped by the total count, not the batch size
    assert_eq!(collection.cached_count(), 3);

    collection.load_mecha_from_backend(3).unwrap();
    // a refill at or past the total appends nothing
    assert_eq!(collection.cached_count(), 3);
}

#[test]
fn refill_refreshes_observed_total() {
    let mut collection = setup_mock();
    assert_eq!(collection.observed_total_count(), 0);
    collection.load_mecha_from_backend(0).unwrap();
    assert_eq!(collection.observed_total_count(), 9);
}

#[test]
fn drain_collects_every_record_in_order() {
    let mut collection = setup_mock();
    let drained = collection.drain().unwrap();
    let names: Vec<String> = drained.into_iter().map(|m| m.name).collect();
    let expected: Vec<String> = (0..9).map(|i| format!("{}", i)).collect();
    assert_eq!(names, expected);
    assert!(matches!(collection.next(), Ok(None)));
}

#[test]
fn drain_stops_at_first_failing_position() {
    let mut backend = MockBackend::new();
    backend.generate_new_mecha(String::from("0"));
    backend.generate_new_mecha(String::from("1"));
    backend.generate_unavailable_position();
    backend.generate_new_mecha(String::from("3"));

    let mut collection = CachedMechaCollection::new(backend);
    assert_eq!(
        collection.drain().map(|v| v.len()),
        Err(MechaError::SourceFailure)
    );
    assert_eq!(collection.cached_count(), 2);
}
