//! The reference storage core: an in-memory mapping of string keys to string
//! values together with the JSON codec that turns it into the backing
//! resource's content.  The file itself is owned by the caller; this core
//! does the load, mutate and serialize work on plain bytes.

use vstd::prelude::*;

use crate::codec;
use crate::codec::json_bytes_of;
use crate::codec::json_map_of;
use crate::storage::StoreError;

verus! {

/// The entries of `ps`, folded into a mapping from key to value; a later
/// entry for a key overrides an earlier one.
pub(crate) open spec fn map_of_pairs(ps: Seq<(String, String)>) -> Map<Seq<char>, Seq<char>>
    decreases ps.len(),
{
    if ps.len() == 0 {
        Map::empty()
    } else {
        map_of_pairs(ps.drop_last()).insert(ps.last().0@, ps.last().1@)
    }
}

/// No two entries of `ps` share a key.
pub(crate) open spec fn keys_unique(ps: Seq<(String, String)>) -> bool {
    forall|i: int, j: int| 0 <= i < j < ps.len() ==> ps[i].0@ != ps[j].0@
}

proof fn lemma_contains_key(ps: Seq<(String, String)>, k: Seq<char>)
    ensures
        map_of_pairs(ps).contains_key(k) <==> exists|i: int| 0 <= i < ps.len() && ps[i].0@ == k,
    decreases ps.len(),
{
    if ps.len() == 0 {
    } else {
        lemma_contains_key(ps.drop_last(), k);
        if ps.last().0@ == k {
            assert(ps[ps.len() - 1].0@ == k);
        } else {
            if map_of_pairs(ps).contains_key(k) {
                let i = choose|i: int|
                    0 <= i < ps.drop_last().len() && ps.drop_last()[i].0@ == k;
                assert(ps[i].0@ == k);
            }
            if exists|i: int| 0 <= i < ps.len() && ps[i].0@ == k {
                let i = choose|i: int| 0 <= i < ps.len() && ps[i].0@ == k;
                assert(ps.drop_last()[i].0@ == k);
            }
        }
    }
}

proof fn lemma_unique_drop_last(ps: Seq<(String, String)>)
    requires
        keys_unique(ps),
        ps.len() > 0,
    ensures
        keys_unique(ps.drop_last()),
{
    assert forall|i: int, j: int|
        0 <= i < j < ps.drop_last().len() implies ps.drop_last()[i].0@
        != ps.drop_last()[j].0@ by {
        assert(ps.drop_last()[i] == ps[i]);
        assert(ps.drop_last()[j] == ps[j]);
    }
}

proof fn lemma_key_value(ps: Seq<(String, String)>, i: int)
    requires
        keys_unique(ps),
        0 <= i < ps.len(),
    ensures
        map_of_pairs(ps).contains_key(ps[i].0@),
        map_of_pairs(ps)[ps[i].0@] == ps[i].1@,
    decreases ps.len(),
{
    if i == ps.len() - 1 {
    } else {
        lemma_unique_drop_last(ps);
        assert(ps.drop_last()[i] == ps[i]);
        lemma_key_value(ps.drop_last(), i);
        assert(ps.last().0@ != ps[i].0@);
    }
}

proof fn lemma_remove_key(ps: Seq<(String, String)>, i: int)
    requires
        keys_unique(ps),
        0 <= i < ps.len(),
    ensures
        map_of_pairs(ps.remove(i)) == map_of_pairs(ps).remove(ps[i].0@),
        keys_unique(ps.remove(i)),
        forall|j: int| 0 <= j < ps.remove(i).len() ==> ps.remove(i)[j].0@ != ps[i].0@,
    decreases ps.len(),
{
    let k = ps[i].0@;
    assert forall|x: int, y: int|
        0 <= x < y < ps.remove(i).len() implies ps.remove(i)[x].0@ != ps.remove(i)[y].0@ by {
        let x0 = if x < i { x } else { x + 1 };
        let y0 = if y < i { y } else { y + 1 };
        assert(ps.remove(i)[x] == ps[x0]);
        assert(ps.remove(i)[y] == ps[y0]);
    }
    assert forall|j: int| 0 <= j < ps.remove(i).len() implies ps.remove(i)[j].0@ != k by {
        let j0 = if j < i { j } else { j + 1 };
        assert(ps.remove(i)[j] == ps[j0]);
    }
    if i == ps.len() - 1 {
        assert(ps.remove(i) =~= ps.drop_last());
        lemma_unique_drop_last(ps);
        lemma_contains_key(ps.drop_last(), k);
        assert(!map_of_pairs(ps.drop_last()).contains_key(k));
        assert(map_of_pairs(ps.drop_last()) =~= map_of_pairs(ps).remove(k));
    } else {
        let qs = ps.remove(i);
        assert(qs.last() == ps.last());
        assert(qs.drop_last() =~= ps.drop_last().remove(i));
        lemma_unique_drop_last(ps);
        lemma_remove_key(ps.drop_last(), i);
        assert(ps.last().0@ != k);
        assert(map_of_pairs(ps.drop_last()).remove(k).insert(ps.last().0@, ps.last().1@)
            =~= map_of_pairs(ps.drop_last()).insert(ps.last().0@, ps.last().1@).remove(k));
    }
}

proof fn lemma_push_pair(ps: Seq<(String, String)>, p: (String, String))
    ensures
        map_of_pairs(ps.push(p)) == map_of_pairs(ps).insert(p.0@, p.1@),
{
    assert(ps.push(p).drop_last() =~= ps);
    assert(ps.push(p).last() == p);
}

proof fn lemma_unique_push(ps: Seq<(String, String)>, p: (String, String))
    requires
        keys_unique(ps),
        forall|j: int| 0 <= j < ps.len() ==> ps[j].0@ != p.0@,
    ensures
        keys_unique(ps.push(p)),
{
    assert forall|i: int, j: int|
        0 <= i < j < ps.push(p).len() implies ps.push(p)[i].0@ != ps.push(p)[j].0@ by {
        if j < ps.len() {
            assert(ps.push(p)[i] == ps[i]);
            assert(ps.push(p)[j] == ps[j]);
        } else {
            assert(ps.push(p)[i] == ps[i]);
            assert(ps.push(p)[j] == p);
        }
    }
}

/// Looks up `key` among the entries; `Some` of the position of its entry
/// when present, `None` when no entry carries it.
fn find_index(data: &Vec<(String, String)>, key: &String) -> (r: Option<usize>)
    ensures
        (match r {
            Some(i) => i < data@.len() && data@[i as int].0@ == key@,
            None => forall|j: int| 0 <= j < data@.len() ==> data@[j].0@ != key@,
        }),
{
    let mut i: usize = 0;
    while i < data.len()
        invariant
            i <= data@.len(),
            forall|j: int| 0 <= j < i ==> data@[j].0@ != key@,
        decreases data@.len() - i,
    {
        if data[i].0 == *key {
            return Some(i);
        }
        i = i + 1;
    }
    None
}

/// The reference backend core: the mapping, keyed uniquely, as loaded from
/// and serialized to one flat JSON object.
#[derive(Debug)]
pub struct JSONStorage {
    data: Vec<(String, String)>,
}

impl View for JSONStorage {
    type V = Map<Seq<char>, Seq<char>>;

    closed spec fn view(&self) -> Map<Seq<char>, Seq<char>> {
        map_of_pairs(self.data@)
    }
}

impl JSONStorage {
    #[verifier::type_invariant]
    spec fn inv(self) -> bool {
        keys_unique(self.data@)
    }

    /// A storage core holding the empty mapping.
    pub fn new() -> (s: Self)
        ensures
            s@ == Map::<Seq<char>, Seq<char>>::empty(),
    {
        JSONStorage { data: Vec::new() }
    }

    /// Loads a storage core from the full content of the backing resource.
    /// Content that is not a well-formed serialization of a mapping — empty
    /// content included — yields the empty mapping rather than an error.
    pub fn from_bytes(bytes: &[u8]) -> (s: Self)
        ensures
            (match json_map_of(bytes@) {
                Some(m) => s@ == m,
                None => s@ == Map::<Seq<char>, Seq<char>>::empty(),
            }),
            bytes@.len() == 0 ==> s@ == Map::<Seq<char>, Seq<char>>::empty(),
    {
        match codec::decode_object(bytes) {
            Some(pairs) => JSONStorage { data: pairs },
            None => JSONStorage { data: Vec::new() },
        }
    }

    /// Serializes the full mapping: the content that a flush writes over
    /// the backing resource.  The bytes are a function of the mapping
    /// alone, and loading them back yields exactly this mapping.
    pub fn to_bytes(&self) -> (r: Vec<u8>)
        ensures
            r@ == json_bytes_of(self@),
            json_map_of(r@) == Some(self@),
    {
        codec::encode_object(&self.data)
    }

    /// A borrowed view of the value bound to `key`, when one is present.
    pub fn get(&self, key: &str) -> (r: Option<&str>)
        ensures
            (match r {
                Some(v) => self@.contains_key(key@) && v@ == self@[key@],
                None => !self@.contains_key(key@),
            }),
    {
        proof {
            use_type_invariant(&*self);
        }
        let k: String = key.to_owned();
        match find_index(&self.data, &k) {
            Some(i) => {
                proof {
                    lemma_key_value(self.data@, i as int);
                }
                Some(self.data[i].1.as_str())
            },
            None => {
                proof {
                    lemma_contains_key(self.data@, k@);
                }
                None
            },
        }
    }

    /// Inserts or overwrites `key` with `value` in the in-memory mapping;
    /// the backing resource is untouched until a flush.  Never fails.
    pub fn set(&mut self, key: &str, value: &str) -> (r: Result<(), StoreError>)
        ensures
            r is Ok,
            final(self)@ == old(self)@.insert(key@, value@),
    {
        proof {
            use_type_invariant(&*self);
        }
        let k: String = key.to_owned();
        let v: String = value.to_owned();
        let mut data: Vec<(String, String)> = Vec::new();
        std::mem::swap(&mut data, &mut self.data);
        let ghost before = data@;
        match find_index(&data, &k) {
            Some(i) => {
                data.remove(i);
                proof {
                    lemma_remove_key(before, i as int);
                    assert(map_of_pairs(before).remove(k@).insert(k@, v@)
                        =~= map_of_pairs(before).insert(k@, v@));
                }
            },
            None => {
                proof {
                    lemma_contains_key(before, k@);
                }
            },
        }
        proof {
            lemma_unique_push(data@, (k, v));
            lemma_push_pair(data@, (k, v));
        }
        data.push((k, v));
        self.data = data;
        Ok(())
    }

    /// Removes `key` from the in-memory mapping if present; a no-op, still
    /// a success, if absent.  Never fails.
    pub fn del(&mut self, key: &str) -> (r: Result<(), StoreError>)
        ensures
            r is Ok,
            final(self)@ == old(self)@.remove(key@),
    {
        proof {
            use_type_invariant(&*self);
        }
        let k: String = key.to_owned();
        match find_index(&self.data, &k) {
            Some(i) => {
                let mut data: Vec<(String, String)> = Vec::new();
                std::mem::swap(&mut data, &mut self.data);
                let ghost before = data@;
                data.remove(i);
                proof {
                    lemma_remove_key(before, i as int);
                }
                self.data = data;
            },
            None => {
                proof {
                    lemma_contains_key(self.data@, k@);
                    assert(self@.remove(k@) =~= self@);
                }
            },
        }
        Ok(())
    }
}

} // verus!
