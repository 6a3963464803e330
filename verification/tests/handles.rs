use after_effects::host::{ByteStore, FlatHandle, Handle, TypedStore};
use after_effects::Error;

#[test]
fn flat_handle_new_and_to_vec() {
    let mut store = ByteStore::with_limit(8);
    let fh = FlatHandle::new(&mut store, vec![1, 2, 3]).unwrap();
    assert_eq!(fh.to_vec(&store), vec![1, 2, 3]);
    assert_eq!(fh.size(&store), 3);
    let raw = fh.into_raw();
    assert!(store.is_live(raw));
}

#[test]
fn flat_handle_from_raw_checks_liveness() {
    let mut store = ByteStore::with_limit(8);
    let fh = FlatHandle::new(&mut store, vec![9]).unwrap();
    let raw = fh.into_raw();
    let again = FlatHandle::from_raw(&store, raw).unwrap();
    assert_eq!(again.as_raw(), raw);
    again.dispose(&mut store);
    assert!(!store.is_live(raw));
    match FlatHandle::from_raw(&store, raw) {
        Err(Error::InternalStructDamaged) => {},
        _ => panic!("a released identifier must be refused"),
    }
    match FlatHandle::from_raw(&store, 999) {
        Err(Error::Generic) => {},
        _ => panic!("an unknown identifier must be refused"),
    }
}

#[test]
fn flat_handle_out_of_memory() {
    let mut store = ByteStore::with_limit(1);
    let first = FlatHandle::new(&mut store, vec![1]).unwrap();
    match FlatHandle::new(&mut store, vec![2]) {
        Err(Error::OutOfMemory) => {},
        _ => panic!("the limit must be enforced"),
    }
    first.dispose(&mut store);
}

#[test]
fn byte_store_identifiers_are_never_reused() {
    let mut store = ByteStore::with_limit(8);
    let a = FlatHandle::new(&mut store, vec![1]).unwrap();
    let a_raw = a.as_raw();
    a.dispose(&mut store);
    let b = FlatHandle::new(&mut store, vec![2]).unwrap();
    assert_ne!(b.as_raw(), a_raw);
    assert!(!store.is_live(a_raw));
}

#[test]
fn typed_handle_new_get_set_dispose() {
    let mut store: TypedStore<(i32, i32)> = TypedStore::with_limit(8);
    let h = Handle::new(&mut store, (3, 4)).unwrap();
    assert_eq!(*h.get(&store).unwrap(), (3, 4));
    h.set(&mut store, (5, 6)).unwrap();
    assert_eq!(*h.get(&store).unwrap(), (5, 6));
    let raw = h.into_raw();
    let again = Handle::from_raw(raw);
    assert_eq!(again.as_raw(), raw);
    again.dispose(&mut store);
    let dead = Handle::from_raw(raw);
    assert_eq!(dead.get(&store).unwrap_err(), Error::InvalidIndex);
    assert_eq!(dead.set(&mut store, (0, 0)).unwrap_err(), Error::InvalidIndex);
}

#[test]
fn typed_handle_lock_pairs_with_unlock() {
    let mut store: TypedStore<u8> = TypedStore::with_limit(8);
    let h = Handle::new(&mut store, 7).unwrap();
    h.lock(&mut store).unwrap();
    h.lock(&mut store).unwrap();
    assert_eq!(*h.get(&store).unwrap(), 7);
    h.unlock(&mut store);
    h.unlock(&mut store);
    h.dispose(&mut store);
}

#[test]
fn typed_handle_lock_rejects_dead_handle() {
    let mut store: TypedStore<u8> = TypedStore::with_limit(8);
    let h = Handle::new(&mut store, 1).unwrap();
    let raw = h.as_raw();
    h.dispose(&mut store);
    let dead = Handle::from_raw(raw);
    assert_eq!(dead.lock(&mut store).unwrap_err(), Error::InvalidIndex);
}

#[test]
fn typed_store_out_of_memory() {
    let mut store: TypedStore<u8> = TypedStore::with_limit(0);
    match Handle::new(&mut store, 1) {
        Err(Error::OutOfMemory) => {},
        _ => panic!("the limit must be enforced"),
    }
}
