use notify_store::{
    Coordinator, Delivery, MemStore, StoreCommand, StoreError, StoreOutcome, WaiterTable, apply,
};

fn coordinator() -> Coordinator<MemStore> {
    Coordinator::new(MemStore::new())
}

#[test]
fn write_then_read_returns_written_value() {
    let mut c = coordinator();
    let ds = c.handle(StoreCommand::Write(b"k".to_vec(), b"v".to_vec()));
    assert_eq!(ds, vec![]);
    let ds = c.handle(StoreCommand::Read(b"k".to_vec(), 1));
    assert_eq!(ds, vec![Delivery::ReadOk(1, Some(b"v".to_vec()))]);
}

#[test]
fn read_before_write_returns_none() {
    let mut c = coordinator();
    let ds = c.handle(StoreCommand::Read(b"missing".to_vec(), 9));
    assert_eq!(ds, vec![Delivery::ReadOk(9, None)]);
}

#[test]
fn await_resolves_on_write() {
    let mut c = coordinator();
    let ds = c.handle(StoreCommand::NotifyRead(b"k".to_vec(), 5));
    assert_eq!(ds, vec![]);
    let ds = c.handle(StoreCommand::Write(b"k".to_vec(), b"v".to_vec()));
    assert_eq!(ds, vec![Delivery::Notified(5, b"v".to_vec())]);
}

#[test]
fn fifo_fairness_among_waiters() {
    let mut c = coordinator();
    for w in 1u64..=4u64 {
        let ds = c.handle(StoreCommand::NotifyRead(b"k".to_vec(), w));
        assert_eq!(ds, vec![]);
    }
    let ds = c.handle(StoreCommand::Write(b"k".to_vec(), b"v".to_vec()));
    assert_eq!(
        ds,
        vec![
            Delivery::Notified(1, b"v".to_vec()),
            Delivery::Notified(2, b"v".to_vec()),
            Delivery::Notified(3, b"v".to_vec()),
            Delivery::Notified(4, b"v".to_vec()),
        ]
    );
}

#[test]
fn no_cross_key_leakage() {
    let mut c = coordinator();
    assert_eq!(c.handle(StoreCommand::NotifyRead(b"k2".to_vec(), 7)), vec![]);
    let ds = c.handle(StoreCommand::Write(b"k1".to_vec(), b"v1".to_vec()));
    assert_eq!(ds, vec![]);
    let ds = c.handle(StoreCommand::Write(b"k2".to_vec(), b"v2".to_vec()));
    assert_eq!(ds, vec![Delivery::Notified(7, b"v2".to_vec())]);
}

#[test]
fn rewrite_overwrites() {
    let mut c = coordinator();
    c.handle(StoreCommand::Write(b"k".to_vec(), b"v1".to_vec()));
    c.handle(StoreCommand::Write(b"k".to_vec(), b"v2".to_vec()));
    let ds = c.handle(StoreCommand::Read(b"k".to_vec(), 3));
    assert_eq!(ds, vec![Delivery::ReadOk(3, Some(b"v2".to_vec()))]);
}

#[test]
fn notify_read_between_writes_resolves_immediately() {
    let mut c = coordinator();
    c.handle(StoreCommand::Write(b"k".to_vec(), b"v1".to_vec()));
    let ds = c.handle(StoreCommand::NotifyRead(b"k".to_vec(), 8));
    assert_eq!(ds, vec![Delivery::Notified(8, b"v1".to_vec())]);
    let ds = c.handle(StoreCommand::Write(b"k".to_vec(), b"v2".to_vec()));
    assert_eq!(ds, vec![]);
}

#[test]
fn notify_read_of_present_key_answers_at_once() {
    let mut c = coordinator();
    c.handle(StoreCommand::Write(b"k".to_vec(), b"v".to_vec()));
    let ds = c.handle(StoreCommand::NotifyRead(b"k".to_vec(), 2));
    assert_eq!(ds, vec![Delivery::Notified(2, b"v".to_vec())]);
}

#[test]
fn full_scenario_on_empty_store() {
    let mut c = coordinator();
    let ds = c.handle(StoreCommand::NotifyRead(b"x".to_vec(), 1));
    assert_eq!(ds, vec![]);
    let ds = c.handle(StoreCommand::Write(b"x".to_vec(), b"1".to_vec()));
    assert_eq!(ds, vec![Delivery::Notified(1, b"1".to_vec())]);
    let ds = c.handle(StoreCommand::Read(b"x".to_vec(), 2));
    assert_eq!(ds, vec![Delivery::ReadOk(2, Some(b"1".to_vec()))]);
    let ds = c.handle(StoreCommand::Read(b"y".to_vec(), 3));
    assert_eq!(ds, vec![Delivery::ReadOk(3, None)]);
}

#[test]
fn failed_lookup_is_reported_to_the_reader() {
    let mut t = WaiterTable::new();
    let ds = apply(
        &mut t,
        StoreCommand::Read(b"k".to_vec(), 4),
        StoreOutcome::GetErr,
    );
    assert_eq!(ds, vec![Delivery::ReadErr(4, StoreError::ReadFailed)]);
}

#[test]
fn failed_lookup_is_reported_to_the_notified_reader() {
    let mut t = WaiterTable::new();
    let ds = apply(
        &mut t,
        StoreCommand::NotifyRead(b"k".to_vec(), 4),
        StoreOutcome::GetErr,
    );
    assert_eq!(ds, vec![Delivery::NotifyErr(4, StoreError::ReadFailed)]);
}

#[test]
fn failed_write_leaves_waiters_pending() {
    let mut t = WaiterTable::new();
    let ds = apply(
        &mut t,
        StoreCommand::NotifyRead(b"k".to_vec(), 6),
        StoreOutcome::GetOk(None),
    );
    assert_eq!(ds, vec![]);
    let ds = apply(
        &mut t,
        StoreCommand::Write(b"k".to_vec(), b"v".to_vec()),
        StoreOutcome::PutErr,
    );
    assert_eq!(ds, vec![]);
    let ds = apply(
        &mut t,
        StoreCommand::Write(b"k".to_vec(), b"v".to_vec()),
        StoreOutcome::PutOk,
    );
    assert_eq!(ds, vec![Delivery::Notified(6, b"v".to_vec())]);
}

#[test]
fn empty_key_and_empty_value_round_trip() {
    let mut c = coordinator();
    c.handle(StoreCommand::Write(Vec::new(), Vec::new()));
    let ds = c.handle(StoreCommand::Read(Vec::new(), 1));
    assert_eq!(ds, vec![Delivery::ReadOk(1, Some(Vec::new()))]);
}
