//! The in-memory-only variant of the storage capability: the mapping is the
//! only copy there is, so a flush has nothing left to write and the locator
//! names no resource to load.

use vstd::prelude::*;

use crate::storage::Storage;
use crate::storage::StoreError;
use crate::store::JSONStorage;

verus! {

/// A backend with no backing resource: it always opens empty, and its
/// flush is a successful no-op.
#[derive(Debug)]
pub struct MemStorage {
    store: JSONStorage,
}

impl Storage for MemStorage {
    closed spec fn model(&self) -> Map<Seq<char>, Seq<char>> {
        self.store@
    }

    /// An in-memory backend has nothing to load: it only ever opens empty.
    open spec fn may_open_with(m: Map<Seq<char>, Seq<char>>) -> bool {
        m == Map::<Seq<char>, Seq<char>>::empty()
    }

    /// With no resource to touch, opening cannot fail.
    open spec fn open_infallible() -> bool {
        true
    }

    fn from(_source: &str) -> (r: Result<Self, StoreError>) {
        Ok(MemStorage { store: JSONStorage::new() })
    }

    fn flush(&mut self) -> (r: Result<(), StoreError>)
        ensures
            r is Ok,
    {
        Ok(())
    }

    fn get(&self, key: &str) -> (r: Option<&str>) {
        self.store.get(key)
    }

    fn set(&mut self, key: &str, value: &str) -> (r: Result<(), StoreError>)
        ensures
            r is Ok,
    {
        self.store.set(key, value)
    }

    fn del(&mut self, key: &str) -> (r: Result<(), StoreError>)
        ensures
            r is Ok,
    {
        self.store.del(key)
    }
}

} // verus!
