//! The storage capability: the contract any persistence strategy must
//! satisfy, independent of encoding or medium, and the laws that follow
//! from it for every backend.

use vstd::prelude::*;

verus! {

/// The one error kind of the store: an I/O failure, surfaced from `open`
/// or `flush` (and, should a backend choose, from `set` or `del`), carrying
/// the failed operation's description.
#[derive(Debug)]
pub struct StoreError {
    pub message: String,
}

/// A persistence strategy: it holds an in-memory mapping of string keys to
/// string values as the working copy of truth, and writes it to a backing
/// resource only on `flush`.
pub trait Storage: Sized {
    /// The mapping this backend currently holds.
    spec fn model(&self) -> Map<Seq<char>, Seq<char>>;

    /// Whether a backend fresh from `from` may hold the mapping `m`: the
    /// strategy's statement of what opening can load.  A backend with no
    /// readable resource admits only the empty mapping.
    spec fn may_open_with(m: Map<Seq<char>, Seq<char>>) -> bool;

    /// Whether this strategy's `from` succeeds on every source.  A backend
    /// that performs no I/O has nothing to fail on and says so here.
    spec fn open_infallible() -> bool;

    /// Constructs a backend bound to `source`, creating the backing
    /// resource if absent; an existing but unreadable resource yields an
    /// empty mapping rather than an error.
    fn from(source: &str) -> (r: Result<Self, StoreError>)
        ensures
            r matches Ok(s) ==> Self::may_open_with(s.model()),
            Self::open_infallible() ==> r is Ok,
    ;

    /// Serializes the full mapping and overwrites the backing resource
    /// from its start, leaving no stale trailing content; the mapping
    /// itself is unchanged either way.
    fn flush(&mut self) -> (r: Result<(), StoreError>)
        ensures
            final(self).model() == old(self).model(),
    ;

    /// A borrowed view of the value bound to `key`, when one is present;
    /// no side effects.
    fn get(&self, key: &str) -> (r: Option<&str>)
        ensures
            (match r {
                Some(v) => self.model().contains_key(key@) && v@ == self.model()[key@],
                None => !self.model().contains_key(key@),
            }),
    ;

    /// Inserts or overwrites `key` with `value` in the in-memory mapping;
    /// the backing resource is untouched until a flush.
    fn set(&mut self, key: &str, value: &str) -> (r: Result<(), StoreError>)
        ensures
            r is Ok ==> final(self).model() == old(self).model().insert(key@, value@),
            r is Err ==> final(self).model() == old(self).model(),
    ;

    /// Removes `key` if present; a no-op, still a success, if absent.
    fn del(&mut self, key: &str) -> (r: Result<(), StoreError>)
        ensures
            r is Ok ==> final(self).model() == old(self).model().remove(key@),
            r is Err ==> final(self).model() == old(self).model(),
    ;
}

/// Law: after a successful `set(k, v)`, `get(k)` yields `v`.  A set leaves
/// the backend's mapping at `insert(k, v)`, and a get on that mapping is
/// bound to return exactly the inserted value.
pub proof fn lemma_set_then_get(m: Map<Seq<char>, Seq<char>>, k: Seq<char>, v: Seq<char>)
    ensures
        m.insert(k, v).contains_key(k),
        m.insert(k, v)[k] == v,
{
}

/// Law: a successful `set(k, v)` followed by a successful `del(k)` leaves
/// `get(k)` absent, whatever was bound to `k` before.
pub proof fn lemma_set_then_del(m: Map<Seq<char>, Seq<char>>, k: Seq<char>, v: Seq<char>)
    ensures
        !m.insert(k, v).remove(k).contains_key(k),
{
}

/// Law: a `del` of an absent key succeeds and leaves the mapping unchanged:
/// the `remove` that its contract promises is the identity there.
pub proof fn lemma_del_absent(m: Map<Seq<char>, Seq<char>>, k: Seq<char>)
    requires
        !m.contains_key(k),
    ensures
        m.remove(k) == m,
{
    assert(m.remove(k) =~= m);
}

} // verus!
