//! A small cache of prepared image protocols, keyed by image hash, that forgets the oldest
//! entry when it grows past its capacity.
use vstd::prelude::*;

use crate::text::str_eq;

verus! {

/// How many protocols the cache keeps.
pub const MAX_SIZE: usize = 10;

/// A cache of at most [`MAX_SIZE`] values, each under a distinct key, remembered in the order
/// the keys were first inserted; when full, a new key evicts the oldest one.
pub struct ImageProtocolCache<P> {
    entries: Vec<(String, P)>,
}

/// The keys of the entries, in insertion order.
pub open spec fn keys_of<P>(e: Seq<(Seq<char>, P)>) -> Seq<Seq<char>> {
    e.map_values(|x: (Seq<char>, P)| x.0)
}

/// No key occurs twice.
pub open spec fn keys_distinct<P>(e: Seq<(Seq<char>, P)>) -> bool {
    forall|i: int, j: int| 0 <= i < j < e.len() ==> (#[trigger] e[i]).0 != (#[trigger] e[j]).0
}

/// Whether `k` is one of the keys.
pub open spec fn has_key<P>(e: Seq<(Seq<char>, P)>, k: Seq<char>) -> bool {
    exists|i: int| 0 <= i < e.len() && (#[trigger] e[i]).0 == k
}

/// The position of key `k` (meaningful when [`has_key`]).
pub open spec fn key_pos<P>(e: Seq<(Seq<char>, P)>, k: Seq<char>) -> int {
    choose|i: int| 0 <= i < e.len() && (#[trigger] e[i]).0 == k
}

/// The entries after inserting `v` under `k`: an existing key keeps its place and takes the
/// new value; a new key goes last, after the oldest entry leaves when the cache is full.
pub open spec fn insert_spec<P>(e: Seq<(Seq<char>, P)>, k: Seq<char>, v: P) -> Seq<(Seq<char>, P)> {
    if has_key(e, k) {
        e.update(key_pos(e, k), (k, v))
    } else if e.len() >= MAX_SIZE {
        e.drop_first().push((k, v))
    } else {
        e.push((k, v))
    }
}

impl<P> View for ImageProtocolCache<P> {
    type V = Seq<(Seq<char>, P)>;

    closed spec fn view(&self) -> Seq<(Seq<char>, P)> {
        self.entries@.map_values(|x: (String, P)| (x.0@, x.1))
    }
}

impl<P> Default for ImageProtocolCache<P> {
    /// An empty cache.
    fn default() -> (c: Self)
        ensures
            c@ == Seq::<(Seq<char>, P)>::empty(),
    {
        Self::new()
    }
}

impl<P> ImageProtocolCache<P> {
    #[verifier::type_invariant]
    spec fn bounded_and_distinct(self) -> bool {
        &&& self.entries@.len() <= MAX_SIZE
        &&& forall|i: int, j: int|
            0 <= i < j < self.entries@.len() ==> (#[trigger] self.entries@[i]).0@ != (
            #[trigger] self.entries@[j]).0@
    }

    /// An empty cache.
    pub fn new() -> (c: Self)
        ensures
            c@ == Seq::<(Seq<char>, P)>::empty(),
    {
        let c = ImageProtocolCache { entries: Vec::new() };
        assert(c@ =~= Seq::<(Seq<char>, P)>::empty());
        c
    }

    /// The cache holds at most [`MAX_SIZE`] entries, under distinct keys.
    pub fn check_bounds(&self)
        ensures
            self@.len() <= MAX_SIZE,
            keys_distinct(self@),
    {
        proof {
            use_type_invariant(self);
            assert forall|i: int, j: int| 0 <= i < j < self@.len() implies (#[trigger] self@[i]).0
                != (#[trigger] self@[j]).0 by {
                assert(self@[i].0 == self.entries@[i].0@);
                assert(self@[j].0 == self.entries@[j].0@);
            }
        }
    }

    /// Position of `hash` among the entries.
    fn position(&self, hash: &str) -> (r: Option<usize>)
        ensures
            match r {
                Some(p) => p < self@.len() && self@[p as int].0 == hash@,
                None => !has_key(self@, hash@),
            },
    {
        let n = self.entries.len();
        let mut i: usize = 0;
        while i < n
            invariant
                n == self.entries@.len(),
                i <= n,
                forall|k: int| 0 <= k < i ==> self.entries@[k].0@ != hash@,
            decreases n - i,
        {
            if str_eq(self.entries[i].0.as_str(), hash) {
                return Some(i);
            }
            i += 1;
        }
        proof {
            assert forall|k: int| 0 <= k < self@.len() implies (#[trigger] self@[k]).0 != hash@ by {
                assert(self@[k].0 == self.entries@[k].0@);
            }
        }
        None
    }

    /// Stores `protocol` under `hash` (see [`insert_spec`]).
    pub fn insert(&mut self, hash: String, protocol: P)
        ensures
            final(self)@ == insert_spec(old(self)@, hash@, protocol),
    {
        proof {
            use_type_invariant(&*self);
        }
        let ghost k = hash@;
        let pos = self.position(hash.as_str());
        let mut tmp = ImageProtocolCache::new();
        std::mem::swap(&mut tmp, self);
        let ImageProtocolCache { mut entries } = tmp;
        let ghost e0 = entries@;
        match pos {
            Some(p) => {
                proof {
                    assert(has_key(old(self)@, k));
                    let q = key_pos(old(self)@, k);
                    assert(old(self)@[q].0 == k);
                    assert(e0[q].0@ == e0[p as int].0@);
                    assert(q == p);
                }
                entries.set(p, (hash, protocol));
            },
            None => {
                if entries.len() >= MAX_SIZE {
                    entries.remove(0);
                }
                entries.push((hash, protocol));
            },
        }
        let ghost view = entries@.map_values(|x: (String, P)| (x.0@, x.1));
        proof {
            assert(view =~= insert_spec(old(self)@, k, protocol));
            assert forall|i: int, j: int|
                0 <= i < j < entries@.len() implies (#[trigger] entries@[i]).0@ != (
                #[trigger] entries@[j]).0@ by {
                assert(view[i].0 == entries@[i].0@);
                assert(view[j].0 == entries@[j].0@);
                assert(old(self)@.len() == e0.len());
                if !has_key(old(self)@, k) {
                    assert forall|m: int| 0 <= m < e0.len() implies (#[trigger] e0[m]).0@ != k by {
                        assert(old(self)@[m].0 == e0[m].0@);
                    }
                }
            }
        }
        *self = ImageProtocolCache { entries };
    }

    /// Removes the entry under `hash` and hands back its value, if there is one.
    pub fn take(&mut self, hash: &str) -> (r: Option<P>)
        ensures
            has_key(old(self)@, hash@) ==> r == Some(old(self)@[key_pos(old(self)@, hash@)].1)
                && final(self)@ == old(self)@.remove(key_pos(old(self)@, hash@)),
            !has_key(old(self)@, hash@) ==> r is None && final(self)@ == old(self)@,
    {
        proof {
            use_type_invariant(&*self);
        }
        match self.position(hash) {
            Some(p) => {
                let mut tmp = ImageProtocolCache::new();
                std::mem::swap(&mut tmp, self);
                let ImageProtocolCache { mut entries } = tmp;
                let ghost e0 = entries@;
                proof {
                    let q = key_pos(old(self)@, hash@);
                    assert(e0[q].0@ == e0[p as int].0@);
                    assert(q == p);
                }
                let (_, v) = entries.remove(p);
                proof {
                    let view = entries@.map_values(|x: (String, P)| (x.0@, x.1));
                    assert(view =~= old(self)@.remove(p as int));
                    assert forall|i: int, j: int|
                        0 <= i < j < entries@.len() implies (#[trigger] entries@[i]).0@ != (
                        #[trigger] entries@[j]).0@ by {
                        let i0 = if i < p { i } else { i + 1 };
                        let j0 = if j < p { j } else { j + 1 };
                        assert(entries@[i] == e0[i0]);
                        assert(entries@[j] == e0[j0]);
                    }
                }
                *self = ImageProtocolCache { entries };
                Some(v)
            },
            None => None,
        }
    }

    /// Whether a value is stored under `hash`.
    pub fn contains(&self, hash: &str) -> (b: bool)
        ensures
            b == has_key(self@, hash@),
    {
        match self.position(hash) {
            Some(_) => true,
            None => false,
        }
    }
}

} // verus!
