//! The bucket-level interface of a store, and its request-level answers.

use vstd::prelude::*;

use crate::bucket::bkt::Bucket;
use crate::cmd::del::DelReq;
use crate::cmd::drop::DropReq;
use crate::cmd::exist::ExistsReq;
use crate::cmd::get::GetReq;
use crate::cmd::insert::InsertReq;
use crate::cmd::set::SetReq;
use crate::cmd::truncate::TruncateReq;
use crate::cmd::{
    bucket_cmd_outcome, cmd_result, key_cmd_outcome, unchecked, write_cmd_outcome, BucketCmdView,
    KeyCmdView, WriteCmdView,
};
use crate::internal::btree::{drop_reply, key_used_status, not_found_status, truncate_reply};
use crate::internal::bytemap::ByteMap;
use crate::internal::kv;
use crate::rpc::{
    del_response, drop_response, opt_val_view, truncate_response, DelRequest, DelResponse,
    DropRequest, DropResponse, ExistsRequest, ExistsResponse, GetRequest, GetResponse,
    InsertRequest, InsertResponse, Key, SetRequest, SetResponse, Timestamp, TruncateRequest,
    TruncateResponse, Val,
};
use crate::status::{Status, StatusView};
use crate::text::push_debug_bytes;

verus! {

/// A store of values under (bucket, key) pairs.
///
/// Buckets may share their keys: `shares(b1, b2)` says that the keys of `b1` are those of
/// `b2`. A write or a removal of a key of a bucket reaches that key in every bucket that
/// shares with it.
pub trait KeyValue: Sized {
    /// The value under `k` in bucket `b`.
    spec fn stored(&self, b: Seq<char>, k: Seq<u8>) -> Option<Seq<u8>>;

    /// Whether bucket `b` exists.
    spec fn has_bucket(&self, b: Seq<char>) -> bool;

    /// Whether buckets `b1` and `b2` share their keys.
    spec fn shares(b1: Seq<char>, b2: Seq<char>) -> bool;

    /// Sharing keys is an equivalence.
    proof fn lemma_shares_equivalence(b1: Seq<char>, b2: Seq<char>, b3: Seq<char>)
        ensures
            Self::shares(b1, b1),
            Self::shares(b1, b2) ==> Self::shares(b2, b1),
            Self::shares(b1, b2) && Self::shares(b2, b3) ==> Self::shares(b1, b3),
    ;

    /// Buckets that share their keys hold the same values.
    proof fn lemma_stored_shared(&self, b1: Seq<char>, b2: Seq<char>, k: Seq<u8>)
        requires
            Self::shares(b1, b2),
        ensures
            self.stored(b1, k) == self.stored(b2, k),
    ;

    /// A bucket that holds a value exists.
    proof fn lemma_stored_in_bucket(&self, b: Seq<char>, k: Seq<u8>)
        requires
            self.stored(b, k) is Some,
        ensures
            self.has_bucket(b),
    ;

    /// A store that holds nothing.
    fn empty() -> (s: Self)
        ensures
            forall|b: Seq<char>, k: Seq<u8>| #[trigger] s.stored(b, k) is None,
    ;

    /// The value under `k` in bucket `b`.
    fn get(&self, b: &Bucket, k: &Key) -> (r: Option<Val>)
        ensures
            opt_val_view(r) == self.stored(b@, k@),
    ;

    /// Whether bucket `b` exists.
    fn exist(&self, b: &Bucket) -> (r: bool)
        ensures
            r == self.has_bucket(b@),
    ;

    /// Whether `k` holds a value in bucket `b`.
    fn exists_key(&self, b: &Bucket, k: &Key) -> (r: bool)
        ensures
            r == self.stored(b@, k@) is Some,
    ;

    /// Puts `v` under `k` in bucket `b`, creating the bucket; gives back what was there.
    fn set(&mut self, b: Bucket, k: Key, v: Val) -> (r: Option<Val>)
        ensures
            opt_val_view(r) == old(self).stored(b@, k@),
            forall|b2: Seq<char>, k2: Seq<u8>|
                #[trigger] final(self).stored(b2, k2) == if Self::shares(b@, b2) && k2 == k@ {
                    Some(v@)
                } else {
                    old(self).stored(b2, k2)
                },
            forall|b2: Seq<char>| #[trigger] final(self).has_bucket(b2)
                == (old(self).has_bucket(b2) || b2 == b@),
    ;

    /// Removes what is under `k` in bucket `b`; gives back what was there.
    fn del(&mut self, b: &Bucket, k: &Key) -> (r: Option<Val>)
        ensures
            opt_val_view(r) == old(self).stored(b@, k@),
            forall|b2: Seq<char>, k2: Seq<u8>|
                #[trigger] final(self).stored(b2, k2) == if Self::shares(b@, b2) && k2 == k@ {
                    None
                } else {
                    old(self).stored(b2, k2)
                },
            forall|b2: Seq<char>| #[trigger] final(self).has_bucket(b2) == old(self).has_bucket(b2),
    ;

    /// Removes every value of bucket `b`.
    fn truncate(&mut self, b: &Bucket)
        ensures
            forall|b2: Seq<char>, k2: Seq<u8>|
                #[trigger] final(self).stored(b2, k2) == if Self::shares(b@, b2) {
                    None
                } else {
                    old(self).stored(b2, k2)
                },
            forall|b2: Seq<char>| #[trigger] final(self).has_bucket(b2) == old(self).has_bucket(b2),
    ;

    /// Puts `v` under `k` in bucket `b` when nothing is there; otherwise refuses and leaves
    /// the store as it was.
    fn ins(&mut self, b: Bucket, k: Key, v: Val) -> (r: Result<(), String>)
        ensures
            match r {
                Ok(()) => {
                    &&& old(self).stored(b@, k@) is None
                    &&& forall|b2: Seq<char>, k2: Seq<u8>|
                        #[trigger] final(self).stored(b2, k2) == if Self::shares(b@, b2) && k2
                            == k@ {
                            Some(v@)
                        } else {
                            old(self).stored(b2, k2)
                        }
                    &&& forall|b2: Seq<char>| #[trigger] final(self).has_bucket(b2)
                        == (old(self).has_bucket(b2) || b2 == b@)
                },
                Err(e) => {
                    &&& old(self).stored(b@, k@) is Some
                    &&& e@ == "the key already used"@
                    &&& forall|b2: Seq<char>, k2: Seq<u8>| #[trigger] final(self).stored(b2, k2)
                        == old(self).stored(b2, k2)
                    &&& forall|b2: Seq<char>| #[trigger] final(self).has_bucket(b2)
                        == old(self).has_bucket(b2)
                },
            },
    {
        let ghost orig = *self;
        let bc = b.clone();
        let kc = k.clone();
        match self.set(bc, kc, v) {
            None => Ok(()),
            Some(old) => {
                let ghost mid = *self;
                self.set(b, k, old);
                proof {
                    orig.lemma_stored_in_bucket(b@, k@);
                    assert forall|b2: Seq<char>, k2: Seq<u8>| #[trigger] self.stored(b2, k2)
                        == orig.stored(b2, k2) by {
                        if Self::shares(b@, b2) && k2 == k@ {
                            orig.lemma_stored_shared(b@, b2, k@);
                        }
                    }
                }
                let mut e = String::new();
                e.append("the key already used");
                Err(e)
            },
        }
    }
}

/// `new` is `old` with the value under `k` in every bucket that shares with `b` made `v`.
pub open spec fn written<K: KeyValue>(
    old: K,
    new: K,
    b: Seq<char>,
    k: Seq<u8>,
    v: Option<Seq<u8>>,
) -> bool {
    forall|b2: Seq<char>, k2: Seq<u8>|
        #[trigger] new.stored(b2, k2) == if K::shares(b, b2) && k2 == k {
            v
        } else {
            old.stored(b2, k2)
        }
}

/// `new` is `old` with every value of every bucket that shares with `b` removed.
pub open spec fn truncated<K: KeyValue>(old: K, new: K, b: Seq<char>) -> bool {
    forall|b2: Seq<char>, k2: Seq<u8>|
        #[trigger] new.stored(b2, k2) == if K::shares(b, b2) {
            None
        } else {
            old.stored(b2, k2)
        }
}

/// A flat map holds one set of keys for every bucket: buckets are ignored.
impl KeyValue for ByteMap {
    open spec fn stored(&self, b: Seq<char>, k: Seq<u8>) -> Option<Seq<u8>> {
        self@.get(k)
    }

    open spec fn has_bucket(&self, b: Seq<char>) -> bool {
        true
    }

    open spec fn shares(b1: Seq<char>, b2: Seq<char>) -> bool {
        true
    }

    proof fn lemma_shares_equivalence(b1: Seq<char>, b2: Seq<char>, b3: Seq<char>) {
    }

    proof fn lemma_stored_shared(&self, b1: Seq<char>, b2: Seq<char>, k: Seq<u8>) {
    }

    proof fn lemma_stored_in_bucket(&self, b: Seq<char>, k: Seq<u8>) {
    }

    fn empty() -> (s: Self) {
        ByteMap::new()
    }

    fn get(&self, b: &Bucket, k: &Key) -> (r: Option<Val>) {
        match ByteMap::get(self, k.k.as_slice()) {
            Some(v) => {
                let r = Val { v: v.clone() };
                assert(r@ == v@);
                Some(r)
            },
            None => None,
        }
    }

    fn exist(&self, b: &Bucket) -> (r: bool) {
        true
    }

    fn exists_key(&self, b: &Bucket, k: &Key) -> (r: bool) {
        self.contains_key(k.k.as_slice())
    }

    fn set(&mut self, b: Bucket, k: Key, v: Val) -> (r: Option<Val>) {
        match self.insert(k.k, v.v) {
            Some(o) => Some(Val { v: o }),
            None => None,
        }
    }

    fn del(&mut self, b: &Bucket, k: &Key) -> (r: Option<Val>) {
        match self.remove(k.k.as_slice()) {
            Some(o) => Some(Val { v: o }),
            None => None,
        }
    }

    fn truncate(&mut self, b: &Bucket) {
        self.clear();
    }
}

/// `new` has the buckets of `old`, and `b` too when it is given.
pub open spec fn buckets_after<K: KeyValue>(old: K, new: K, added: Option<Seq<char>>) -> bool {
    forall|b2: Seq<char>| #[trigger] new.has_bucket(b2) == (old.has_bucket(b2) || added == Some(b2))
}

/// The answer of a store to a read.
pub open spec fn store_get<K: KeyValue>(
    s: K,
    c: Result<KeyCmdView, StatusView>,
    now: Timestamp,
) -> Result<(Option<Seq<u8>>, Option<Timestamp>), StatusView> {
    match c {
        Err(e) => Err(e),
        Ok(c) => match s.stored(c.bucket, c.key) {
            Some(v) => Ok((Some(v), Some(now))),
            None => Err(not_found_status(c.key)),
        },
    }
}

/// The answer of a store to a question whether a key holds a value.
pub open spec fn store_exists<K: KeyValue>(s: K, c: Result<KeyCmdView, StatusView>) -> Result<
    bool,
    StatusView,
> {
    match c {
        Err(e) => Err(e),
        Ok(c) => Ok(s.stored(c.bucket, c.key) is Some),
    }
}

/// The store `new` and answer `r` after a write to `old`.
pub open spec fn store_set<K: KeyValue>(
    old: K,
    new: K,
    c: Result<WriteCmdView, StatusView>,
    r: Result<Option<Timestamp>, StatusView>,
    now: Timestamp,
) -> bool {
    match c {
        Err(e) => new == old && r == Err::<Option<Timestamp>, StatusView>(e),
        Ok(c) => {
            &&& written(old, new, c.bucket, c.key, Some(c.val))
            &&& buckets_after(old, new, Some(c.bucket))
            &&& r == Ok::<Option<Timestamp>, StatusView>(Some(now))
        },
    }
}

/// The store `new` and answer `r` after an insert into `old`: a key that holds a value is
/// refused and the store left as it was.
pub open spec fn store_insert<K: KeyValue>(
    old: K,
    new: K,
    c: Result<WriteCmdView, StatusView>,
    r: Result<Option<Timestamp>, StatusView>,
    now: Timestamp,
) -> bool {
    match c {
        Err(e) => new == old && r == Err::<Option<Timestamp>, StatusView>(e),
        Ok(c) => if old.stored(c.bucket, c.key) is Some {
            &&& written(old, new, c.bucket, c.key, old.stored(c.bucket, c.key))
            &&& buckets_after(old, new, None)
            &&& r == Err::<Option<Timestamp>, StatusView>(key_used_status())
        } else {
            &&& written(old, new, c.bucket, c.key, Some(c.val))
            &&& buckets_after(old, new, Some(c.bucket))
            &&& r == Ok::<Option<Timestamp>, StatusView>(Some(now))
        },
    }
}

/// The store `new` and answer `r` after a removal from `old`.
pub open spec fn store_del<K: KeyValue>(
    old: K,
    new: K,
    c: Result<KeyCmdView, StatusView>,
    r: Result<Option<del_response::Status>, StatusView>,
    now: Timestamp,
) -> bool {
    match c {
        Err(e) => new == old && r == Err::<Option<del_response::Status>, StatusView>(e),
        Ok(c) => {
            &&& written(old, new, c.bucket, c.key, None)
            &&& buckets_after(old, new, None)
            &&& r == Ok::<Option<del_response::Status>, StatusView>(
                if old.stored(c.bucket, c.key) is Some {
                    Some(del_response::Status::Removed(now))
                } else {
                    Some(del_response::Status::Absent(()))
                },
            )
        },
    }
}

/// The store `new` after a truncation of `old`: every value of the bucket is removed.
pub open spec fn store_clear<K: KeyValue>(old: K, new: K, c: Result<BucketCmdView, StatusView>) -> bool {
    match c {
        Err(_) => new == old,
        Ok(c) => {
            &&& truncated(old, new, c.bucket)
            &&& buckets_after(old, new, None)
        },
    }
}

/// Whether the bucket of a bucket command exists in `s`, or why the command was refused.
pub open spec fn bucket_found<K: KeyValue>(s: K, c: Result<BucketCmdView, StatusView>) -> Result<
    bool,
    StatusView,
> {
    match c {
        Err(e) => Err(e),
        Ok(c) => Ok(s.has_bucket(c.bucket)),
    }
}

/// The answer to a truncation, given whether the bucket existed.
pub open spec fn truncate_answer(found: Result<bool, StatusView>, now: Timestamp) -> Result<
    Option<truncate_response::Status>,
    StatusView,
> {
    match found {
        Ok(x) => Ok(truncate_reply(x, now)),
        Err(e) => Err(e),
    }
}

/// The answer to a drop, given whether the bucket existed.
pub open spec fn drop_answer(found: Result<bool, StatusView>, now: Timestamp) -> Result<
    Option<drop_response::Status>,
    StatusView,
> {
    match found {
        Ok(x) => Ok(drop_reply(x, now)),
        Err(e) => Err(e),
    }
}

/// The refusal of a read of `key`.
fn not_found_key(key: &[u8]) -> (s: Status)
    ensures
        s@ == not_found_status(key@),
{
    let mut m = String::new();
    m.append("No val found for key: ");
    push_debug_bytes(&mut m, key);
    Status::not_found(m)
}

/// Empties bucket `b`; tells whether it existed.
fn clear_bucket<K: KeyValue>(s: &mut K, b: &Bucket) -> (found: bool)
    ensures
        truncated(*old(s), *final(s), b@),
        buckets_after(*old(s), *final(s), None),
        found == old(s).has_bucket(b@),
{
    let found: bool = s.exist(b);
    s.truncate(b);
    found
}

/// A bucket-level store that answers requests. Requests are not checked: their buckets are
/// taken as they are.
pub struct CoreKv<K> {
    core_kv: K,
}

impl<K> CoreKv<K> {
    /// The store.
    pub closed spec fn store(&self) -> K {
        self.core_kv
    }

    /// The store.
    pub fn inner(&self) -> (s: &K)
        ensures
            *s == self.store(),
    {
        &self.core_kv
    }
}

impl<K: KeyValue> kv::KeyValue for CoreKv<K> {
    fn get(&self, req: GetRequest, now: Timestamp) -> (r: Result<GetResponse, Status>)
        ensures
            cmd_result(r) == store_get(
                self.store(),
                key_cmd_outcome(req.request_id, req.bucket, req.key, unchecked(req.bucket)),
                now,
            ),
    {
        let nocheck = GetReq::try_from(req);
        let nocheck = match nocheck {
            Ok(c) => c,
            Err(e) => return Err(e),
        };
        let b: &Bucket = nocheck.as_bucket();
        let k: &Key = nocheck.as_key();
        match KeyValue::get(&self.core_kv, b, k) {
            Some(v) => Ok(GetResponse { val: Some(v), got: Some(now) }),
            None => Err(not_found_key(nocheck.as_key_bytes())),
        }
    }

    fn exist(&self, req: ExistsRequest) -> (r: Result<ExistsResponse, Status>)
        ensures
            cmd_result(r) == store_exists(
                self.store(),
                key_cmd_outcome(req.request_id, req.bucket, req.key, unchecked(req.bucket)),
            ),
    {
        let nocheck = match ExistsReq::try_from(req) {
            Ok(c) => c,
            Err(e) => return Err(e),
        };
        let found: bool = self.core_kv.exists_key(nocheck.as_bucket(), nocheck.as_key());
        Ok(ExistsResponse { found })
    }

    fn set(&mut self, req: SetRequest, now: Timestamp) -> (r: Result<SetResponse, Status>)
        ensures
            store_set(
                old(self).store(),
                final(self).store(),
                write_cmd_outcome(req.request_id, req.bucket, req.key, req.val, unchecked(req.bucket)),
                cmd_result(r),
                now,
            ),
    {
        let nochecked = match SetReq::try_from(req) {
            Ok(c) => c,
            Err(e) => return Err(e),
        };
        let (b, k, v) = nochecked.into_unpacked();
        KeyValue::set(&mut self.core_kv, b, k, v);
        Ok(SetResponse { set: Some(now) })
    }

    fn del(&mut self, req: DelRequest, now: Timestamp) -> (r: Result<DelResponse, Status>)
        ensures
            store_del(
                old(self).store(),
                final(self).store(),
                key_cmd_outcome(req.request_id, req.bucket, req.key, unchecked(req.bucket)),
                cmd_result(r),
                now,
            ),
    {
        let nochecked = match DelReq::try_from(req) {
            Ok(c) => c,
            Err(e) => return Err(e),
        };
        let b: &Bucket = nochecked.as_bucket();
        let k: &Key = nochecked.as_key();
        let reply = match KeyValue::del(&mut self.core_kv, b, k) {
            None => DelResponse { status: Some(del_response::Status::Absent(())) },
            Some(_) => DelResponse { status: Some(del_response::Status::Removed(now)) },
        };
        Ok(reply)
    }

    fn truncate(&mut self, req: TruncateRequest, now: Timestamp) -> (r: Result<
        TruncateResponse,
        Status,
    >)
        ensures
            store_clear(
                old(self).store(),
                final(self).store(),
                bucket_cmd_outcome(req.request_id, req.bucket, unchecked(req.bucket)),
            ),
            cmd_result(r) == truncate_answer(
                bucket_found(
                    old(self).store(),
                    bucket_cmd_outcome(req.request_id, req.bucket, unchecked(req.bucket)),
                ),
                now,
            ),
    {
        let nocheck = match TruncateReq::try_from(req) {
            Ok(c) => c,
            Err(e) => return Err(e),
        };
        let b: &Bucket = nocheck.as_bucket();
        let found: bool = clear_bucket(&mut self.core_kv, b);
        let empty: bool = !found;
        let reply = if empty {
            TruncateResponse { status: Some(truncate_response::Status::Absent(())) }
        } else {
            TruncateResponse { status: Some(truncate_response::Status::Truncated(now)) }
        };
        Ok(reply)
    }

    fn drop(&mut self, req: DropRequest, now: Timestamp) -> (r: Result<DropResponse, Status>)
        ensures
            store_clear(
                old(self).store(),
                final(self).store(),
                bucket_cmd_outcome(req.request_id, req.bucket, unchecked(req.bucket)),
            ),
            cmd_result(r) == drop_answer(
                bucket_found(
                    old(self).store(),
                    bucket_cmd_outcome(req.request_id, req.bucket, unchecked(req.bucket)),
                ),
                now,
            ),
    {
        let nocheck = match DropReq::try_from(req) {
            Ok(c) => c,
            Err(e) => return Err(e),
        };
        let b: &Bucket = nocheck.as_bucket();
        let found: bool = clear_bucket(&mut self.core_kv, b);
        let reply = if !found {
            DropResponse { status: Some(drop_response::Status::Absent(())) }
        } else {
            DropResponse { status: Some(drop_response::Status::Dropped(now)) }
        };
        Ok(reply)
    }

    fn insert(&mut self, req: InsertRequest, now: Timestamp) -> (r: Result<InsertResponse, Status>)
        ensures
            store_insert(
                old(self).store(),
                final(self).store(),
                write_cmd_outcome(req.request_id, req.bucket, req.key, req.val, unchecked(req.bucket)),
                cmd_result(r),
                now,
            ),
    {
        let nocheck = match InsertReq::try_from(req) {
            Ok(c) => c,
            Err(e) => return Err(e),
        };
        let (b, k, v) = nocheck.into_unpacked();
        let ghost (bv, kv) = (b@, k@);
        match self.core_kv.ins(b, k, v) {
            Ok(()) => Ok(InsertResponse { inserted: Some(now) }),
            Err(e) => {
                proof {
                    assert forall|b2: Seq<char>, k2: Seq<u8>| K::shares(bv, b2) && k2 == kv
                        implies #[trigger] old(self).store().stored(b2, k2) == old(
                        self,
                    ).store().stored(bv, kv) by {
                        old(self).store().lemma_stored_shared(bv, b2, kv);
                    }
                }
                Err(Status::failed_precondition(e))
            },
        }
    }
}

/// A read of a key of a bucket after a write of it gives the written value.
pub proof fn lemma_store_get_after_set<K: KeyValue>(
    old: K,
    new: K,
    w: WriteCmdView,
    r: Result<Option<Timestamp>, StatusView>,
    c: KeyCmdView,
    t1: Timestamp,
    t2: Timestamp,
)
    requires
        store_set(old, new, Ok(w), r, t1),
        c.bucket == w.bucket,
        c.key == w.key,
    ensures
        store_get(new, Ok(c), t2) == Ok::<(Option<Seq<u8>>, Option<Timestamp>), StatusView>(
            (Some(w.val), Some(t2)),
        ),
{
    K::lemma_shares_equivalence(w.bucket, w.bucket, w.bucket);
    assert(new.stored(c.bucket, c.key) == Some(w.val));
}

/// An insert of a key that holds a value is refused and leaves every value as it was.
pub proof fn lemma_store_insert_refused<K: KeyValue>(
    old: K,
    new: K,
    w: WriteCmdView,
    r: Result<Option<Timestamp>, StatusView>,
    t: Timestamp,
    b: Seq<char>,
    k: Seq<u8>,
)
    requires
        store_insert(old, new, Ok(w), r, t),
        old.stored(w.bucket, w.key) is Some,
    ensures
        r == Err::<Option<Timestamp>, StatusView>(key_used_status()),
        new.stored(b, k) == old.stored(b, k),
        new.has_bucket(b) == old.has_bucket(b),
{
    if K::shares(w.bucket, b) && k == w.key {
        old.lemma_stored_shared(w.bucket, b, w.key);
    }
    assert(new.stored(b, k) == old.stored(b, k));
}

/// After a truncation of a bucket, no key of it holds a value.
pub proof fn lemma_store_truncate_empties<K: KeyValue>(
    old: K,
    new: K,
    c: BucketCmdView,
    k: Seq<u8>,
)
    requires
        store_clear(old, new, Ok(c)),
    ensures
        new.stored(c.bucket, k) is None,
{
    K::lemma_shares_equivalence(c.bucket, c.bucket, c.bucket);
    assert(new.stored(c.bucket, k) is None);
}

/// A write of (bucket, key) binds that key, answers with the time, and leaves the value of
/// every other (bucket, key) as it was: a key of another bucket that does not share keys
/// with it, or another key of any bucket.
pub proof fn lemma_store_set_writes_one_key<K: KeyValue>(
    old: K,
    new: K,
    w: WriteCmdView,
    r: Result<Option<Timestamp>, StatusView>,
    t: Timestamp,
    b2: Seq<char>,
    k2: Seq<u8>,
)
    requires
        store_set(old, new, Ok(w), r, t),
        !K::shares(w.bucket, b2) || k2 != w.key,
    ensures
        r == Ok::<Option<Timestamp>, StatusView>(Some(t)),
        new.stored(b2, k2) == old.stored(b2, k2),
        new.stored(w.bucket, w.key) == Some(w.val),
{
    K::lemma_shares_equivalence(w.bucket, w.bucket, w.bucket);
    assert(new.stored(b2, k2) == old.stored(b2, k2));
    assert(new.stored(w.bucket, w.key) == Some(w.val));
}

/// A removal of (bucket, key) unbinds that key, reports whether it held a value, and leaves
/// the value of every other (bucket, key) as it was.
pub proof fn lemma_store_del_removes_one_key<K: KeyValue>(
    old: K,
    new: K,
    d: KeyCmdView,
    r: Result<Option<del_response::Status>, StatusView>,
    t: Timestamp,
    b2: Seq<char>,
    k2: Seq<u8>,
)
    requires
        store_del(old, new, Ok(d), r, t),
        !K::shares(d.bucket, b2) || k2 != d.key,
    ensures
        new.stored(b2, k2) == old.stored(b2, k2),
        new.stored(d.bucket, d.key) is None,
        (r == Ok::<Option<del_response::Status>, StatusView>(
            Some(del_response::Status::Removed(t)),
        )) == (old.stored(d.bucket, d.key) is Some),
{
    K::lemma_shares_equivalence(d.bucket, d.bucket, d.bucket);
    assert(new.stored(b2, k2) == old.stored(b2, k2));
    assert(new.stored(d.bucket, d.key) is None);
}

/// A question whether a key holds a value is answered yes exactly when a read of it
/// succeeds, and no whenever the key holds nothing, whether or not its bucket exists.
pub proof fn lemma_store_exists_answers_key<K: KeyValue>(s: K, c: KeyCmdView, t: Timestamp)
    ensures
        (store_exists(s, Ok(c)) == Ok::<bool, StatusView>(true)) == store_get(s, Ok(c), t) is Ok,
        s.stored(c.bucket, c.key) is None ==> store_exists(s, Ok(c)) == Ok::<bool, StatusView>(
            false,
        ),
{
}

/// After a removal of a key a question about it is answered no, and after a write of it,
/// yes.
pub proof fn lemma_store_exists_after_write_and_del<K: KeyValue>(
    old: K,
    new: K,
    w: WriteCmdView,
    rs: Result<Option<Timestamp>, StatusView>,
    d: KeyCmdView,
    rd: Result<Option<del_response::Status>, StatusView>,
    c: KeyCmdView,
    t: Timestamp,
)
    requires
        c.bucket == w.bucket && c.key == w.key,
        c.bucket == d.bucket && c.key == d.key,
    ensures
        store_set(old, new, Ok(w), rs, t) ==> store_exists(new, Ok(c)) == Ok::<bool, StatusView>(
            true,
        ),
        store_del(old, new, Ok(d), rd, t) ==> store_exists(new, Ok(c)) == Ok::<bool, StatusView>(
            false,
        ),
{
    K::lemma_shares_equivalence(c.bucket, c.bucket, c.bucket);
    if store_set(old, new, Ok(w), rs, t) {
        assert(new.stored(c.bucket, c.key) == Some(w.val));
    }
    if store_del(old, new, Ok(d), rd, t) {
        assert(new.stored(c.bucket, c.key) is None);
    }
}

/// A read that succeeds carries the key's value; a read of a key that holds nothing is
/// refused as not found, whether or not its bucket exists; after a removal of the key a read
/// of it is refused as not found.
pub proof fn lemma_store_get_answers_value<K: KeyValue>(
    s: K,
    c: KeyCmdView,
    t: Timestamp,
    old: K,
    d: KeyCmdView,
    rd: Result<Option<del_response::Status>, StatusView>,
)
    requires
        c.bucket == d.bucket && c.key == d.key,
    ensures
        store_get(s, Ok(c), t) is Ok ==> store_get(s, Ok(c), t)->Ok_0.0 == s.stored(
            c.bucket,
            c.key,
        ) && s.stored(c.bucket, c.key) is Some,
        s.stored(c.bucket, c.key) is None ==> store_get(s, Ok(c), t) == Err::<
            (Option<Seq<u8>>, Option<Timestamp>),
            StatusView,
        >(not_found_status(c.key)),
        store_del(old, s, Ok(d), rd, t) ==> store_get(s, Ok(c), t) == Err::<
            (Option<Seq<u8>>, Option<Timestamp>),
            StatusView,
        >(not_found_status(c.key)),
{
    K::lemma_shares_equivalence(c.bucket, c.bucket, c.bucket);
    if store_del(old, s, Ok(d), rd, t) {
        assert(s.stored(c.bucket, c.key) is None);
    }
}

/// An insert of a key that holds nothing is carried out: it answers with the time, binds
/// the key to the new value, and leaves every other (bucket, key) as it was.
pub proof fn lemma_store_insert_unbound<K: KeyValue>(
    old: K,
    new: K,
    w: WriteCmdView,
    r: Result<Option<Timestamp>, StatusView>,
    t: Timestamp,
    b2: Seq<char>,
    k2: Seq<u8>,
)
    requires
        store_insert(old, new, Ok(w), r, t),
        old.stored(w.bucket, w.key) is None,
        !K::shares(w.bucket, b2) || k2 != w.key,
    ensures
        r == Ok::<Option<Timestamp>, StatusView>(Some(t)),
        new.stored(w.bucket, w.key) == Some(w.val),
        new.stored(b2, k2) == old.stored(b2, k2),
{
    K::lemma_shares_equivalence(w.bucket, w.bucket, w.bucket);
    assert(new.stored(w.bucket, w.key) == Some(w.val));
    assert(new.stored(b2, k2) == old.stored(b2, k2));
}

/// A truncation of a bucket leaves every bucket that does not share keys with it as it was,
/// and answers that it truncated whenever the bucket held a value.
pub proof fn lemma_store_truncate_keeps_other_buckets<K: KeyValue>(
    old: K,
    new: K,
    c: BucketCmdView,
    t: Timestamp,
    b2: Seq<char>,
    k2: Seq<u8>,
)
    requires
        store_clear(old, new, Ok(c)),
        !K::shares(c.bucket, b2),
    ensures
        new.stored(b2, k2) == old.stored(b2, k2),
        old.stored(c.bucket, k2) is Some ==> truncate_answer(bucket_found(old, Ok(c)), t)
            == Ok::<Option<truncate_response::Status>, StatusView>(
            Some(truncate_response::Status::Truncated(t)),
        ),
{
    assert(new.stored(b2, k2) == old.stored(b2, k2));
    if old.stored(c.bucket, k2) is Some {
        old.lemma_stored_in_bucket(c.bucket, k2);
    }
}

/// A truncation or a drop of a bucket that does not exist answers that it was absent, and
/// changes no value and no bucket.
pub proof fn lemma_store_clear_absent<K: KeyValue>(
    old: K,
    new: K,
    c: BucketCmdView,
    t: Timestamp,
    b2: Seq<char>,
    k2: Seq<u8>,
)
    requires
        store_clear(old, new, Ok(c)),
        !old.has_bucket(c.bucket),
    ensures
        truncate_answer(bucket_found(old, Ok(c)), t) == Ok::<
            Option<truncate_response::Status>,
            StatusView,
        >(Some(truncate_response::Status::Absent(()))),
        drop_answer(bucket_found(old, Ok(c)), t) == Ok::<
            Option<drop_response::Status>,
            StatusView,
        >(Some(drop_response::Status::Absent(()))),
        new.stored(b2, k2) == old.stored(b2, k2),
        new.has_bucket(b2) == old.has_bucket(b2),
{
    if K::shares(c.bucket, b2) && old.stored(b2, k2) is Some {
        old.lemma_stored_shared(c.bucket, b2, k2);
        old.lemma_stored_in_bucket(c.bucket, k2);
    }
    assert(new.stored(b2, k2) == old.stored(b2, k2));
}

/// A write of a key followed by a truncation or a drop of its bucket: the truncation answers
/// that it truncated and the drop that it dropped, the key is unbound, the bucket still
/// exists, and every bucket that does not share keys with it holds what it held before the
/// write.
pub proof fn lemma_store_clear_after_set<K: KeyValue>(
    s0: K,
    s1: K,
    s2: K,
    w: WriteCmdView,
    r: Result<Option<Timestamp>, StatusView>,
    c: BucketCmdView,
    t1: Timestamp,
    t2: Timestamp,
    b2: Seq<char>,
    k2: Seq<u8>,
)
    requires
        store_set(s0, s1, Ok(w), r, t1),
        store_clear(s1, s2, Ok(c)),
        c.bucket == w.bucket,
    ensures
        truncate_answer(bucket_found(s1, Ok(c)), t2) == Ok::<
            Option<truncate_response::Status>,
            StatusView,
        >(Some(truncate_response::Status::Truncated(t2))),
        drop_answer(bucket_found(s1, Ok(c)), t2) == Ok::<
            Option<drop_response::Status>,
            StatusView,
        >(Some(drop_response::Status::Dropped(t2))),
        s2.stored(w.bucket, w.key) is None,
        s2.has_bucket(w.bucket),
        !K::shares(w.bucket, b2) ==> s2.stored(b2, k2) == s0.stored(b2, k2),
{
    K::lemma_shares_equivalence(w.bucket, w.bucket, w.bucket);
    assert(s1.has_bucket(w.bucket));
    assert(s2.stored(w.bucket, w.key) is None);
    if !K::shares(w.bucket, b2) {
        assert(s2.stored(b2, k2) == s1.stored(b2, k2));
        assert(s1.stored(b2, k2) == s0.stored(b2, k2));
    }
}

/// Serves the requests of a bucket-level store.
pub fn kv_new<K>(core_kv: K) -> (s: CoreKv<K>)
    where
        K: KeyValue,
    ensures
        s.store() == core_kv,
{
    CoreKv { core_kv }
}

} // verus!
