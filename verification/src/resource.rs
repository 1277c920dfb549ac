//! The backing resource seam: a place that whole snapshots of serialized
//! content are loaded from and written over.  The methods carry no
//! contracts — a resource is the outside world, and the backend above it
//! is verified to behave for every answer a resource can give.

use vstd::prelude::*;

use crate::storage::StoreError;

verus! {

/// A backing resource bound to a locator: a file, a buffer, or any other
/// medium that can yield its full content and be overwritten whole.
pub trait Resource: Sized {
    /// Binds a resource to `source`, creating it if absent.
    fn open(source: &str) -> (r: Result<Self, StoreError>);

    /// The resource's full current content.
    fn load(&mut self) -> (r: Result<Vec<u8>, StoreError>);

    /// Makes `content` the resource's entire content, from its start,
    /// leaving nothing of what was there before.
    fn replace(&mut self, content: &[u8]) -> (r: Result<(), StoreError>);
}

/// A resource held in memory: a plain buffer, empty at open.  It gives the
/// JSON backend a medium with no outside world behind it.
#[derive(Debug)]
pub struct MemResource {
    content: Vec<u8>,
}

impl Resource for MemResource {
    fn open(_source: &str) -> (r: Result<Self, StoreError>)
        ensures
            r is Ok,
    {
        Ok(MemResource { content: Vec::new() })
    }

    fn load(&mut self) -> (r: Result<Vec<u8>, StoreError>)
        ensures
            r is Ok,
            *final(self) == *old(self),
    {
        Ok(vstd::slice::slice_to_vec(self.content.as_slice()))
    }

    fn replace(&mut self, content: &[u8]) -> (r: Result<(), StoreError>)
        ensures
            r is Ok,
    {
        self.content = vstd::slice::slice_to_vec(content);
        Ok(())
    }
}

} // verus!
