//! Folding a bucket into a key, so that one flat store can hold many buckets.

use vstd::prelude::*;

use crate::bucket::bkt::Bucket;
use crate::rpc::Key;
use crate::status::{Status, StatusView};
use vstd::utf8::encode_utf8;

verus! {

const JOIN_SEP_DEFAULT: u8 = 47;

/// What a prefixing gave back, by value.
pub open spec fn key_result_view(r: Result<Key, Status>) -> Result<Seq<u8>, StatusView> {
    match r {
        Ok(k) => Ok(k@),
        Err(e) => Err(e@),
    }
}

/// Makes one key of a bucket and a key.
pub trait BucketAsPrefix {
    /// The key that `key` of `bucket` becomes, or why there is none.
    spec fn prefixed_key(&self, bucket: Seq<char>, key: Seq<u8>) -> Result<Seq<u8>, StatusView>;

    /// The key that `key` of `bucket` becomes, or why there is none.
    fn key_with_bucket(&self, bucket: &Bucket, key: &Key) -> (r: Result<Key, Status>)
        ensures
            key_result_view(r) == self.prefixed_key(bucket@, key@),
    ;
}

/// The bucket's UTF-8 bytes, then the key.
pub open spec fn concat_key(bucket: Seq<char>, key: Seq<u8>) -> Seq<u8> {
    encode_utf8(bucket) + key
}

/// The bucket's UTF-8 bytes, the separator, then the key.
pub open spec fn join_key(sep: u8, bucket: Seq<char>, key: Seq<u8>) -> Seq<u8> {
    encode_utf8(bucket) + seq![sep] + key
}

struct Concat {}

impl BucketAsPrefix for Concat {
    open spec fn prefixed_key(&self, bucket: Seq<char>, key: Seq<u8>) -> Result<
        Seq<u8>,
        StatusView,
    > {
        Ok(concat_key(bucket, key))
    }

    fn key_with_bucket(&self, bucket: &Bucket, key: &Key) -> (r: Result<Key, Status>) {
        let b: &[u8] = bucket.as_bytes();
        let mut v: Vec<u8> = vstd::slice::slice_to_vec(b);
        v.extend_from_slice(key.k.as_slice());
        proof {
            assert(v@ =~= concat_key(bucket@, key@));
        }
        Ok(Key { k: v })
    }
}

struct Join {
    j: u8,
}

impl BucketAsPrefix for Join {
    closed spec fn prefixed_key(&self, bucket: Seq<char>, key: Seq<u8>) -> Result<
        Seq<u8>,
        StatusView,
    > {
        Ok(join_key(self.j, bucket, key))
    }

    fn key_with_bucket(&self, bucket: &Bucket, key: &Key) -> (r: Result<Key, Status>) {
        let b: &[u8] = bucket.as_bytes();
        let mut v: Vec<u8> = vstd::slice::slice_to_vec(b);
        v.push(self.j);
        v.extend_from_slice(key.k.as_slice());
        proof {
            assert(v@ =~= join_key(self.j, bucket@, key@));
        }
        Ok(Key { k: v })
    }
}

/// Keys made of the bucket's bytes followed by the key's.
pub fn bucket_as_prefix_new_concat() -> (p: impl BucketAsPrefix)
    ensures
        forall|b: Seq<char>, k: Seq<u8>| #[trigger] p.prefixed_key(b, k) == Ok::<Seq<u8>, StatusView>(concat_key(b, k)),
{
    Concat {}
}

/// Keys made of the bucket's bytes, `sep`, then the key's.
pub fn bucket_as_prefix_new_join(sep: u8) -> (p: impl BucketAsPrefix)
    ensures
        forall|b: Seq<char>, k: Seq<u8>| #[trigger] p.prefixed_key(b, k) == Ok::<Seq<u8>, StatusView>(join_key(sep, b, k)),
{
    Join { j: sep }
}

/// Keys made of the bucket's bytes, `/`, then the key's.
pub fn bucket_as_prefix_new_join_default() -> (p: impl BucketAsPrefix)
    ensures
        forall|b: Seq<char>, k: Seq<u8>| #[trigger] p.prefixed_key(b, k) == Ok::<Seq<u8>, StatusView>(join_key(47, b, k)),
{
    bucket_as_prefix_new_join(JOIN_SEP_DEFAULT)
}

/// Joined keys keep buckets apart: when neither bucket's bytes hold the separator, two
/// (bucket, key) pairs give the same joined key only if they are the same pair.
pub proof fn lemma_join_key_separates(
    sep: u8,
    b1: Seq<char>,
    k1: Seq<u8>,
    b2: Seq<char>,
    k2: Seq<u8>,
)
    requires
        !encode_utf8(b1).contains(sep),
        !encode_utf8(b2).contains(sep),
        join_key(sep, b1, k1) == join_key(sep, b2, k2),
    ensures
        encode_utf8(b1) == encode_utf8(b2),
        k1 == k2,
{
    let e1 = encode_utf8(b1);
    let e2 = encode_utf8(b2);
    let j = join_key(sep, b1, k1);
    if e1.len() < e2.len() {
        assert(j[e1.len() as int] == sep);
        assert(join_key(sep, b2, k2)[e1.len() as int] == e2[e1.len() as int]);
        assert(e2.contains(sep));
    } else if e2.len() < e1.len() {
        assert(join_key(sep, b2, k2)[e2.len() as int] == sep);
        assert(j[e2.len() as int] == e1[e2.len() as int]);
        assert(e1.contains(sep));
    }
    assert(e1 =~= j.subrange(0, e1.len() as int));
    assert(e2 =~= join_key(sep, b2, k2).subrange(0, e2.len() as int));
    assert(k1 =~= j.subrange(e1.len() as int + 1, j.len() as int));
    assert(k2 =~= join_key(sep, b2, k2).subrange(e2.len() as int + 1, j.len() as int));
}

} // verus!
