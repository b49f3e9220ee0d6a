//! An associative table: a hash map from digests of keys to the few entries that share a
//! digest.

use std::collections::HashMap;
use vstd::prelude::*;

verus! {

/// Keys that can be told apart, and filed by a digest.
pub trait Key: View + Sized {
    /// The digest of a key.
    spec fn digest_of(key: <Self as View>::V) -> u64;

    /// Whether two keys are the same key.
    fn same(&self, other: &Self) -> (same: bool)
        ensures
            same == (self@ == other@),
    ;

    /// The digest under which the key is filed.
    fn digest(&self) -> (digest: u64)
        ensures
            digest == Self::digest_of(self@),
    ;
}

/// The entries whose keys share a digest. Each key stands in it at most once.
#[derive(Debug)]
struct Bucket<K, V> {
    entries: Vec<(K, V)>,
}

/// Position `i` of `entries` is that of the key `k`.
spec fn is_at<K: Key, V>(entries: Seq<(K, V)>, k: <K as View>::V, i: int) -> bool {
    0 <= i < entries.len() && entries[i].0@ == k
}

impl<K: Key, V> Bucket<K, V> {
    /// No key stands in the bucket twice.
    spec fn wf(self) -> bool {
        forall|i: int, j: int|
            0 <= i < j < self.entries@.len() ==> self.entries@[i].0@ != self.entries@[j].0@
    }
}

impl<K: Key, V> View for Bucket<K, V> {
    type V = Map<<K as View>::V, V>;

    closed spec fn view(&self) -> Map<<K as View>::V, V> {
        Map::new(
            |k: <K as View>::V| exists|i: int| is_at(self.entries@, k, i),
            |k: <K as View>::V| self.entries@[choose|i: int| is_at(self.entries@, k, i)].1,
        )
    }
}

impl<K: Key, V> Bucket<K, V> {
    /// The value under a key is that of the one entry that has the key.
    proof fn entry_is_value(self, i: int)
        requires
            self.wf(),
            0 <= i < self.entries@.len(),
        ensures
            self@.contains_key(self.entries@[i].0@),
            self@[self.entries@[i].0@] == self.entries@[i].1,
    {
        let k = self.entries@[i].0@;
        assert(is_at(self.entries@, k, i));
        let j = choose|j: int| is_at(self.entries@, k, j);
        assert(is_at(self.entries@, k, j));
        assert(i == j);
    }

    /// An empty bucket.
    fn new() -> (bucket: Self)
        ensures
            bucket.wf(),
            bucket@ == Map::<<K as View>::V, V>::empty(),
    {
        let bucket = Bucket { entries: Vec::new() };
        assert(bucket@ =~= Map::<<K as View>::V, V>::empty());
        bucket
    }

    /// Where the key stands.
    fn position(&self, key: &K) -> (at: Option<usize>)
        ensures
            at matches Some(i) ==> is_at(self.entries@, key@, i as int),
            at is None ==> !self@.contains_key(key@),
    {
        let mut i: usize = 0;
        while i < self.entries.len()
            invariant
                i <= self.entries@.len(),
                forall|k: int| 0 <= k < i ==> self.entries@[k].0@ != key@,
            decreases self.entries@.len() - i,
        {
            if self.entries[i].0.same(key) {
                return Some(i);
            }
            i += 1;
        }
        None
    }

    /// The value under a key.
    fn get(&self, key: &K) -> (value: Option<&V>)
        requires
            self.wf(),
        ensures
            value is Some <==> self@.contains_key(key@),
            value matches Some(v) ==> *v == self@[key@],
    {
        match self.position(key) {
            Some(i) => {
                proof {
                    self.entry_is_value(i as int);
                }
                Some(&self.entries[i].1)
            },
            None => None,
        }
    }

    /// Puts a value under a key, in place of the one that stood there.
    fn insert(&mut self, key: K, value: V)
        requires
            old(self).wf(),
        ensures
            final(self).wf(),
            final(self)@ == old(self)@.insert(key@, value),
    {
        let ghost before = *self;
        let ghost k0 = key@;
        let at = self.position(&key);
        match at {
            Some(i) => {
                self.entries.set(i, (key, value));
                proof {
                    assert(is_at(self.entries@, k0, i as int));
                    assert forall|j: int| 0 <= j < before.entries@.len() && j != i implies
                        before.entries@[j].0@ != k0 && self.entries@[j] == before.entries@[j] by {
                    }
                    assert(self.wf());
                    self.included_but_for(before, k0);
                    before.included_but_for(*self, k0);
                    self.entry_is_value(i as int);
                }
            },
            None => {
                self.entries.push((key, value));
                proof {
                    assert forall|j: int| 0 <= j < before.entries@.len() implies
                        before.entries@[j].0@ != k0 && self.entries@[j] == before.entries@[j] by {
                        assert(is_at(before.entries@, before.entries@[j].0@, j));
                    }
                    assert(self.wf());
                    self.included_but_for(before, k0);
                    before.included_but_for(*self, k0);
                    self.entry_is_value(before.entries@.len() as int);
                }
            },
        }
        assert(self@.dom() =~= before@.insert(k0, value).dom());
        assert(self@ =~= before@.insert(k0, value));
    }

    /// Where every entry of this bucket under a key other than `k0` is an entry of
    /// another bucket, so is every value under such a key.
    proof fn included_but_for(self, other: Self, k0: <K as View>::V)
        requires
            self.wf(),
            other.wf(),
            forall|i: int|
                0 <= i < self.entries@.len() && (#[trigger] self.entries@[i]).0@ != k0
                    ==> exists|j: int|
                    0 <= j < other.entries@.len() && other.entries@[j] == self.entries@[i],
        ensures
            forall|k: <K as View>::V|
                k != k0 && #[trigger] self@.contains_key(k) ==> other@.contains_key(k)
                    && other@[k] == self@[k],
    {
        assert forall|k: <K as View>::V|
            k != k0 && #[trigger] self@.contains_key(k) implies other@.contains_key(k)
            && other@[k] == self@[k] by {
            let i = choose|i: int| is_at(self.entries@, k, i);
            assert(is_at(self.entries@, k, i));
            let j = choose|j: int|
                0 <= j < other.entries@.len() && other.entries@[j] == self.entries@[i];
            self.entry_is_value(i);
            other.entry_is_value(j);
        }
    }

    /// Takes a key out.
    fn remove(&mut self, key: &K)
        requires
            old(self).wf(),
        ensures
            final(self).wf(),
            final(self)@ == old(self)@.remove(key@),
    {
        let ghost before = *self;
        let at = self.position(key);
        if let Some(i) = at {
            let _gone = self.entries.remove(i);
            proof {
                assert forall|j: int| 0 <= j < self.entries@.len() implies self.entries@[j]
                    == before.entries@[if j < i { j } else { j + 1 }] by {
                }
                assert(self.wf());
                assert forall|j: int|
                    0 <= j < before.entries@.len() && (#[trigger] before.entries@[j]).0@
                        != key@ implies exists|n: int|
                    0 <= n < self.entries@.len() && self.entries@[n] == before.entries@[j] by {
                    let n = if j < i { j } else { j - 1 };
                    assert(self.entries@[n] == before.entries@[j]);
                }
                self.included_but_for(before, key@);
                before.included_but_for(*self, key@);
                if self@.contains_key(key@) {
                    let n = choose|n: int| is_at(self.entries@, key@, n);
                    assert(is_at(self.entries@, key@, n));
                }
            }
        }
        assert(self@.dom() =~= before@.remove(key@).dom());
        assert(self@ =~= before@.remove(key@));
    }
}

/// A map from keys to values.
#[derive(Debug)]
#[verifier::reject_recursive_types(K)]
#[verifier::reject_recursive_types(V)]
pub struct Table<K, V> {
    buckets: HashMap<u64, Bucket<K, V>>,
}

impl<K: Key, V> Table<K, V> {
    /// No key stands in the table twice.
    pub closed spec fn wf(self) -> bool {
        forall|digest: u64| #[trigger]
            self.buckets@.contains_key(digest) ==> self.buckets@[digest].wf()
    }
}

impl<K: Key, V> View for Table<K, V> {
    type V = Map<<K as View>::V, V>;

    closed spec fn view(&self) -> Map<<K as View>::V, V> {
        Map::new(
            |k: <K as View>::V|
                self.buckets@.contains_key(K::digest_of(k)) && self.buckets@[K::digest_of(
                    k,
                )]@.contains_key(k),
            |k: <K as View>::V| self.buckets@[K::digest_of(k)]@[k],
        )
    }
}

impl<K: Key, V> Table<K, V> {
    /// An empty table.
    pub fn new() -> (table: Self)
        ensures
            table.wf(),
            table@ == Map::<<K as View>::V, V>::empty(),
    {
        let table = Table { buckets: HashMap::new() };
        assert(table@ =~= Map::<<K as View>::V, V>::empty());
        table
    }

    /// The value under a key.
    pub fn get(&self, key: &K) -> (value: Option<&V>)
        requires
            self.wf(),
        ensures
            value is Some <==> self@.contains_key(key@),
            value matches Some(v) ==> *v == self@[key@],
    {
        let digest: u64 = key.digest();
        match self.buckets.get(&digest) {
            Some(bucket) => bucket.get(key),
            None => None,
        }
    }

    /// Puts a value under a key, in place of the one that stood there.
    pub fn insert(&mut self, key: K, value: V)
        requires
            old(self).wf(),
        ensures
            final(self).wf(),
            final(self)@ == old(self)@.insert(key@, value),
    {
        let ghost before = *self;
        let ghost k0 = key@;
        let digest: u64 = key.digest();
        let mut bucket = match self.buckets.remove(&digest) {
            Some(bucket) => bucket,
            None => Bucket::new(),
        };
        bucket.insert(key, value);
        self.buckets.insert(digest, bucket);
        assert(self@ =~= before@.insert(k0, value));
    }

    /// Takes a key out.
    pub fn remove(&mut self, key: &K)
        requires
            old(self).wf(),
        ensures
            final(self).wf(),
            final(self)@ == old(self)@.remove(key@),
    {
        let ghost before = *self;
        let digest: u64 = key.digest();
        if let Some(bucket) = self.buckets.remove(&digest) {
            let mut bucket = bucket;
            let ghost whole = bucket@;
            bucket.remove(key);
            if bucket.entries.len() > 0 {
                self.buckets.insert(digest, bucket);
            } else {
                assert forall|k: <K as View>::V| k != key@ implies !whole.contains_key(k) by {
                    assert(!bucket@.contains_key(k));
                    assert(bucket@ == whole.remove(key@));
                }
            }
        }
        assert(self@.dom() =~= before@.remove(key@).dom());
        assert(self@ =~= before@.remove(key@));
    }
}

} // verus!
