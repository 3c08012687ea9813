//! The store-adapter contract the coordinator requires from the
//! persistence engine, and an engine held wholly in memory.
use vstd::prelude::*;
use crate::assoc::AssocList;
use crate::clone_bytes;
use crate::types::{Key, StoreError, Value};

verus! {

/// The minimal synchronous contract of the persistence engine: point
/// writes, durable upon return, and point lookups, each independently
/// atomic. `contents` is the engine's current mapping from keys to
/// values; either operation may fail, and a failure leaves the contents
/// unchanged.
pub trait Store: Sized {
    /// The engine's current contents.
    spec fn contents(&self) -> Map<Seq<u8>, Seq<u8>>;

    /// Durable point write: on success the key holds the value.
    fn put(&mut self, key: &Key, value: &Value) -> (r: Result<(), StoreError>)
        ensures
            r is Ok ==> final(self).contents() == old(self).contents().insert(key@, value@),
            r is Err ==> final(self).contents() == old(self).contents() && r == Err::<
                (),
                StoreError,
            >(StoreError::WriteFailed),
    ;

    /// Point lookup: on success, the value under the key when present.
    fn get(&self, key: &Key) -> (r: Result<Option<Value>, StoreError>)
        ensures
            match r {
                Ok(found) => match found {
                    Some(v) => self.contents().contains_key(key@) && v@ == self.contents()[key@],
                    None => !self.contents().contains_key(key@),
                },
                Err(e) => e == StoreError::ReadFailed,
            },
    ;
}

/// An engine held wholly in memory, with error-free operations. It backs
/// the coordinator where no persistence is wanted and shows that the
/// adapter contract is satisfiable.
pub struct MemStore {
    inner: AssocList<Vec<u8>>,
}

impl MemStore {
    /// An empty store.
    pub fn new() -> (r: Self)
        ensures
            r.contents() == Map::<Seq<u8>, Seq<u8>>::empty(),
    {
        MemStore { inner: AssocList::new() }
    }
}

impl Store for MemStore {
    closed spec fn contents(&self) -> Map<Seq<u8>, Seq<u8>> {
        self.inner@
    }

    fn put(&mut self, key: &Key, value: &Value) -> (r: Result<(), StoreError>)
        ensures
            r is Ok,
    {
        let k = clone_bytes(key);
        let v = clone_bytes(value);
        self.inner.set(k, v);
        Ok(())
    }

    fn get(&self, key: &Key) -> (r: Result<Option<Value>, StoreError>)
        ensures
            r is Ok,
    {
        match self.inner.get(key) {
            Some(v) => Ok(Some(clone_bytes(v))),
            None => Ok(None),
        }
    }
}

} // verus!
