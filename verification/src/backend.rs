//! The JSON-backed storage strategy over an arbitrary backing resource:
//! the load, mutate and flush protocol of the reference implementation,
//! generic over the medium the serialized mapping rests on.

use vstd::prelude::*;

use crate::codec::json_map_of;
use crate::resource::Resource;
use crate::storage::Storage;
use crate::storage::StoreError;
use crate::store::JSONStorage;

verus! {

/// A storage backend that keeps its mapping in a verified core and its
/// durable copy, one flat JSON object, on a backing resource.
#[derive(Debug)]
pub struct JSONBackend<R: Resource> {
    resource: R,
    store: JSONStorage,
}

impl<R: Resource> Storage for JSONBackend<R> {
    closed spec fn model(&self) -> Map<Seq<char>, Seq<char>> {
        self.store@
    }

    /// A fresh JSON backend holds what its resource's content serializes,
    /// or nothing at all when that content is missing or unreadable.
    open spec fn may_open_with(m: Map<Seq<char>, Seq<char>>) -> bool {
        m == Map::<Seq<char>, Seq<char>>::empty() || (exists|b: Seq<u8>|
            json_map_of(b) == Some(m))
    }

    /// Opening the backing resource itself can fail, so no success is owed.
    open spec fn open_infallible() -> bool {
        false
    }

    fn from(source: &str) -> (r: Result<Self, StoreError>) {
        let mut resource = match R::open(source) {
            Ok(resource) => resource,
            Err(e) => return Err(e),
        };
        let store = match resource.load() {
            Ok(content) => {
                let store = JSONStorage::from_bytes(content.as_slice());
                proof {
                    if json_map_of(content@) is Some {
                        assert(json_map_of(content@) == Some(store@));
                    }
                }
                store
            },
            // a resource whose content cannot be read starts empty, like
            // one whose content does not parse
            Err(_) => JSONStorage::new(),
        };
        Ok(JSONBackend { resource, store })
    }

    fn flush(&mut self) -> (r: Result<(), StoreError>) {
        let content = self.store.to_bytes();
        self.resource.replace(content.as_slice())
    }

    fn get(&self, key: &str) -> (r: Option<&str>) {
        self.store.get(key)
    }

    fn set(&mut self, key: &str, value: &str) -> (r: Result<(), StoreError>)
        ensures
            r is Ok,
    {
        self.store.set(key, value)
    }

    fn del(&mut self, key: &str) -> (r: Result<(), StoreError>)
        ensures
            r is Ok,
    {
        self.store.del(key)
    }
}

} // verus!
