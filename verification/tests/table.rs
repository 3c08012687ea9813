use notify_store::{
    Delivery, MemStore, Store, StoreCommand, StoreOutcome, WaiterTable, apply, bytes_equal,
    clone_bytes,
};

#[test]
fn take_hands_back_waiters_in_arrival_order() {
    let mut t = WaiterTable::new();
    let mut u = WaiterTable::new();
    apply(
        &mut t,
        StoreCommand::NotifyRead(b"a".to_vec(), 3),
        StoreOutcome::GetOk(None),
    );
    apply(
        &mut t,
        StoreCommand::NotifyRead(b"a".to_vec(), 1),
        StoreOutcome::GetOk(None),
    );
    apply(
        &mut t,
        StoreCommand::NotifyRead(b"b".to_vec(), 2),
        StoreOutcome::GetOk(None),
    );
    let ds = apply(
        &mut t,
        StoreCommand::Write(b"a".to_vec(), b"v".to_vec()),
        StoreOutcome::PutOk,
    );
    assert_eq!(
        ds,
        vec![
            Delivery::Notified(3, b"v".to_vec()),
            Delivery::Notified(1, b"v".to_vec()),
        ]
    );
    let ds = apply(
        &mut u,
        StoreCommand::Write(b"a".to_vec(), b"v".to_vec()),
        StoreOutcome::PutOk,
    );
    assert_eq!(ds, vec![]);
}

#[test]
fn mem_store_put_then_get() {
    let mut s = MemStore::new();
    assert_eq!(s.get(&b"k".to_vec()), Ok(None));
    assert_eq!(s.put(&b"k".to_vec(), &b"v1".to_vec()), Ok(()));
    assert_eq!(s.get(&b"k".to_vec()), Ok(Some(b"v1".to_vec())));
    assert_eq!(s.put(&b"k".to_vec(), &b"v2".to_vec()), Ok(()));
    assert_eq!(s.get(&b"k".to_vec()), Ok(Some(b"v2".to_vec())));
    assert_eq!(s.get(&b"other".to_vec()), Ok(None));
}

#[test]
fn bytes_equal_compares_contents() {
    assert!(bytes_equal(&b"abc".to_vec(), &b"abc".to_vec()));
    assert!(!bytes_equal(&b"abc".to_vec(), &b"abd".to_vec()));
    assert!(!bytes_equal(&b"abc".to_vec(), &b"ab".to_vec()));
    assert!(bytes_equal(&Vec::new(), &Vec::new()));
}

#[test]
fn clone_bytes_copies_contents() {
    let v = b"payload".to_vec();
    let c = clone_bytes(&v);
    assert_eq!(c, v);
    assert_eq!(clone_bytes(&Vec::new()), Vec::new());
}
