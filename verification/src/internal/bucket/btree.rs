//! A store that keeps a store of its own for each bucket.

use vstd::prelude::*;

use crate::bucket::bkt::Bucket;
use crate::internal::bucket::bucketmap::BucketMap;
use crate::internal::bytemap::ByteMap;
use crate::internal::kvcore::{written, KeyValue};
use crate::rpc::{Key, Val};

verus! {

/// Whether buckets `b1` and `b2` of a store of type `T` share their keys.
pub open spec fn shares_of<T: KeyValue>(s: T, b1: Seq<char>, b2: Seq<char>) -> bool {
    T::shares(b1, b2)
}

/// A store that keeps a store of type `K` for each bucket; buckets never share keys.
pub struct BTree<K> {
    internal: BucketMap<K>,
}

impl<K> BTree<K> {
    /// The store of each bucket.
    pub closed spec fn stores(&self) -> Map<Seq<char>, K> {
        self.internal@
    }
}

impl<K: KeyValue> KeyValue for BTree<K> {
    open spec fn stored(&self, b: Seq<char>, k: Seq<u8>) -> Option<Seq<u8>> {
        if self.stores().contains_key(b) {
            self.stores()[b].stored(b, k)
        } else {
            None
        }
    }

    open spec fn has_bucket(&self, b: Seq<char>) -> bool {
        self.stores().contains_key(b)
    }

    open spec fn shares(b1: Seq<char>, b2: Seq<char>) -> bool {
        b1 == b2
    }

    proof fn lemma_shares_equivalence(b1: Seq<char>, b2: Seq<char>, b3: Seq<char>) {
    }

    proof fn lemma_stored_shared(&self, b1: Seq<char>, b2: Seq<char>, k: Seq<u8>) {
    }

    proof fn lemma_stored_in_bucket(&self, b: Seq<char>, k: Seq<u8>) {
    }

    fn empty() -> (s: Self)
        ensures
            s.stores() == Map::<Seq<char>, K>::empty(),
    {
        BTree { internal: BucketMap::new() }
    }

    fn get(&self, b: &Bucket, k: &Key) -> (r: Option<Val>) {
        match self.internal.get(b) {
            None => None,
            Some(kvstore) => kvstore.get(b, k),
        }
    }

    fn exist(&self, b: &Bucket) -> (r: bool) {
        self.internal.contains_key(b)
    }

    fn exists_key(&self, b: &Bucket, k: &Key) -> (r: bool) {
        match self.internal.get(b) {
            None => false,
            Some(kvstore) => kvstore.exists_key(b, k),
        }
    }

    fn set(&mut self, b: Bucket, k: Key, v: Val) -> (r: Option<Val>) {
        let mut kvstore: K = match self.internal.remove(&b) {
            Some(s) => s,
            None => K::empty(),
        };
        let ghost inner = kvstore;
        let ov: Option<Val> = kvstore.set(b.clone(), k, v);
        self.internal.insert(b, kvstore);
        proof {
            K::lemma_shares_equivalence(b@, b@, b@);
            assert(inner.stored(b@, k@) == old(self).stored(b@, k@));
        }
        ov
    }

    fn del(&mut self, b: &Bucket, k: &Key) -> (r: Option<Val>) {
        match self.internal.remove(b) {
            None => {
                assert(self.internal@ =~= old(self).internal@);
                None
            },
            Some(kvstore) => {
                let mut kvstore = kvstore;
                let ov = kvstore.del(b, k);
                self.internal.insert(b.clone(), kvstore);
                proof {
                    K::lemma_shares_equivalence(b@, b@, b@);
                }
                ov
            },
        }
    }

    fn truncate(&mut self, b: &Bucket) {
        match self.internal.remove(b) {
            None => {
                assert(self.internal@ =~= old(self).internal@);
            },
            Some(kvstore) => {
                let mut kvstore = kvstore;
                kvstore.truncate(b);
                self.internal.insert(b.clone(), kvstore);
                proof {
                    K::lemma_shares_equivalence(b@, b@, b@);
                }
            },
        }
    }
}

impl<K: KeyValue> Default for BTree<K> {
    fn default() -> (s: Self)
        ensures
            s.stores() == Map::<Seq<char>, K>::empty(),
    {
        BTree { internal: BucketMap::new() }
    }
}

/// Buckets are kept apart: a write or a removal in one bucket leaves every other bucket's
/// values as they were.
pub proof fn lemma_buckets_kept_apart<K: KeyValue>(
    old: BTree<K>,
    new: BTree<K>,
    b: Seq<char>,
    k: Seq<u8>,
    v: Option<Seq<u8>>,
    b2: Seq<char>,
    k2: Seq<u8>,
)
    requires
        written(old, new, b, k, v),
        b2 != b,
    ensures
        new.stored(b2, k2) == old.stored(b2, k2),
{
    assert(new.stored(b2, k2) == old.stored(b2, k2));
}

/// A flat map ignores buckets: a write to a key of one bucket is seen in every bucket.
pub proof fn lemma_flat_map_shares_buckets(
    old: ByteMap,
    new: ByteMap,
    b: Seq<char>,
    k: Seq<u8>,
    v: Option<Seq<u8>>,
    b2: Seq<char>,
)
    requires
        written(old, new, b, k, v),
    ensures
        new.stored(b2, k) == v,
{
    assert(new.stored(b2, k) == v);
}

/// A store with no bucket, that will keep a store of type `K` for each bucket.
pub fn kv_btree_new<K>() -> (s: impl KeyValue)
    where
        K: KeyValue,
    ensures
        forall|b: Seq<char>, k: Seq<u8>| #[trigger] s.stored(b, k) is None,
        forall|b: Seq<char>| !(#[trigger] s.has_bucket(b)),
        forall|b1: Seq<char>, b2: Seq<char>| #[trigger] shares_of(s, b1, b2) == (b1 == b2),
{
    BTree::<K>::empty()
}

/// A store with no bucket, that will keep a flat map for each bucket.
pub fn kv_btree_btree_new() -> (s: impl KeyValue)
    ensures
        forall|b: Seq<char>, k: Seq<u8>| #[trigger] s.stored(b, k) is None,
        forall|b: Seq<char>| !(#[trigger] s.has_bucket(b)),
        forall|b1: Seq<char>, b2: Seq<char>| #[trigger] shares_of(s, b1, b2) == (b1 == b2),
{
    kv_btree_new::<ByteMap>()
}

} // verus!
