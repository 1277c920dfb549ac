//! The database handle: it owns exactly one storage backend and forwards
//! every operation to it unchanged.

use vstd::prelude::*;

use crate::storage::Storage;
use crate::storage::StoreError;

verus! {

/// The caller-facing handle: exclusive owner of one backend for its whole
/// lifetime.
#[derive(Debug)]
pub struct Database<S: Storage> {
    storage: S,
}

impl<S: Storage> Database<S> {
    /// The mapping held by the owned backend.
    pub closed spec fn model(&self) -> Map<Seq<char>, Seq<char>> {
        self.storage.model()
    }

    /// A borrowed view of the value bound to `key`, when one is present.
    pub fn get(&self, key: &str) -> (r: Option<&str>)
        ensures
            (match r {
                Some(v) => self.model().contains_key(key@) && v@ == self.model()[key@],
                None => !self.model().contains_key(key@),
            }),
    {
        self.storage.get(key)
    }

    /// Inserts or overwrites `key` with `value` in the backend's mapping.
    pub fn set(&mut self, key: &str, value: &str) -> (r: Result<(), StoreError>)
        ensures
            r is Ok ==> final(self).model() == old(self).model().insert(key@, value@),
            r is Err ==> final(self).model() == old(self).model(),
    {
        self.storage.set(key, value)
    }

    /// Removes `key` from the backend's mapping if present.
    pub fn del(&mut self, key: &str) -> (r: Result<(), StoreError>)
        ensures
            r is Ok ==> final(self).model() == old(self).model().remove(key@),
            r is Err ==> final(self).model() == old(self).model(),
    {
        self.storage.del(key)
    }

    /// Writes the full mapping over the backing resource; the mapping is
    /// unchanged whether the write succeeds or fails.
    pub fn flush(&mut self) -> (r: Result<(), StoreError>)
        ensures
            final(self).model() == old(self).model(),
    {
        self.storage.flush()
    }
}

/// Opens the backend chosen by `S`, bound to `path`, and wraps it in a
/// handle: the fresh handle holds a mapping the strategy admits as loaded;
/// on which sources opening fails is the chosen backend's concern.
pub fn open<S: Storage>(path: &str) -> (r: Result<Database<S>, StoreError>)
    ensures
        r matches Ok(db) ==> S::may_open_with(db.model()),
        S::open_infallible() ==> r is Ok,
{
    match <S as Storage>::from(path) {
        Ok(storage) => Ok(Database { storage }),
        Err(e) => Err(e),
    }
}

} // verus!
