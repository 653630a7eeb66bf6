//! A map of at most ten entries, kept as a list in insertion order.  A lookup
//! finds the entry that was inserted first under the key.

use vstd::prelude::*;
use vstd::std_specs::cmp::PartialEqSpec;
use crate::program::vec::fast::Vec;

verus! {

/// The number of entries a map can hold.
pub const CAPACITY: usize = 10;

/// A bounded map.
#[derive(Debug)]
pub struct HashMap<K, V> {
    buckets: Vec<(K, V)>,
}

impl<K, V> View for HashMap<K, V> {
    type V = Seq<(K, V)>;

    /// The entries, in insertion order.
    closed spec fn view(&self) -> Seq<(K, V)> {
        self.buckets@
    }
}

impl<K, V> HashMap<K, V> where K: Eq + Copy + Default, V: Copy + Default {
    /// The map keeps within its capacity.
    pub closed spec fn wf(&self) -> bool {
        self.buckets.wf()
    }

    /// An empty map.
    pub fn new() -> (map: Self)
        ensures
            map.wf(),
            map@ == Seq::<(K, V)>::empty(),
    {
        let buckets = Vec::with_capacity(CAPACITY);
        HashMap { buckets }
    }

    /// How many entries the map holds.
    pub fn len(&self) -> (n: usize)
        requires
            self.wf(),
        ensures
            n == self@.len(),
            n <= CAPACITY,
    {
        self.buckets.len()
    }

    /// Adds the entry `key`, `value` behind the entries held.
    pub fn insert(&mut self, key: K, value: V)
        requires
            old(self).wf(),
            old(self)@.len() < CAPACITY,
        ensures
            final(self).wf(),
            final(self)@ == old(self)@.push((key, value)),
    {
        self.buckets.push((key, value));
    }

    /// The value of the first entry whose key equals `key`.
    pub fn get(&self, key: K) -> (r: Option<&V>)
        requires
            self.wf(),
        ensures
            K::obeys_eq_spec() ==> match r {
                Some(v) => exists|i: int|
                    0 <= i < self@.len() && (#[trigger] self@[i]).0.eq_spec(&key) && *v
                        == self@[i].1 && forall|j: int|
                        0 <= j < i ==> !(#[trigger] self@[j]).0.eq_spec(&key),
                None => forall|j: int| 0 <= j < self@.len() ==> !(#[trigger] self@[j]).0.eq_spec(&key),
            },
    {
        let mut i: usize = 0;
        while i < self.buckets.size
            invariant
                i <= self.buckets.size <= CAPACITY,
                K::obeys_eq_spec() ==> forall|j: int|
                    0 <= j < i ==> !(#[trigger] self@[j]).0.eq_spec(&key),
            decreases self.buckets.size - i,
        {
            assert(self@[i as int] == self.buckets.data@[i as int]);
            if self.buckets.data[i].0 == key {
                return Some(&self.buckets.data[i].1);
            }
            i = i + 1;
        }
        None
    }
}

impl<K, V> Default for HashMap<K, V> where K: Eq + Copy + Default, V: Copy + Default {
    /// An empty map.
    fn default() -> (map: Self)
        ensures
            map.wf(),
            map@ == Seq::<(K, V)>::empty(),
    {
        Self::new()
    }
}

} // verus!
