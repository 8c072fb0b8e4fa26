//! Virtual buckets: a service that folds each request's bucket into its key and hands the
//! request on to a service of one flat bucket.

use vstd::prelude::*;

use crate::bucket::bkt::Bucket;
use crate::bucket::checker::Checker;
use crate::bucket::prefix::BucketAsPrefix;
use crate::cmd::del::DelReq;
use crate::cmd::exist::ExistsReq;
use crate::cmd::get::GetReq;
use crate::cmd::insert::InsertReq;
use crate::cmd::set::SetReq;
use crate::cmd::truncate::TruncateReq;
use crate::cmd::{
    bucket_cmd_outcome, checked_by, cmd_result, key_cmd_outcome, write_cmd_outcome,
    BucketCmdView, KeyCmdView, WriteCmdView,
};
use crate::rpc;
use crate::rpc::{
    DelRequest, ExistsRequest, GetRequest, InsertRequest, Key, SetRequest, TruncateRequest, Val,
};
use crate::status::{Status, StatusView};
use crate::uuid::{join_halves, lemma_new_undoes_split, Uuid};

verus! {

/// The identifier and key that a key command is handed on with.
pub open spec fn forwarded_key<P: BucketAsPrefix>(p: P, c: Result<KeyCmdView, StatusView>) -> Result<
    (u128, Seq<u8>),
    StatusView,
> {
    match c {
        Err(e) => Err(e),
        Ok(c) => match p.prefixed_key(c.bucket, c.key) {
            Err(e) => Err(e),
            Ok(k) => Ok((c.request_id, k)),
        },
    }
}

/// The identifier, key and value that a write command is handed on with.
pub open spec fn forwarded_write<P: BucketAsPrefix>(
    p: P,
    c: Result<WriteCmdView, StatusView>,
) -> Result<(u128, Seq<u8>, Seq<u8>), StatusView> {
    match c {
        Err(e) => Err(e),
        Ok(c) => match p.prefixed_key(c.bucket, c.key) {
            Err(e) => Err(e),
            Ok(k) => Ok((c.request_id, k, c.val)),
        },
    }
}

/// The identifier that a bucket command is handed on with.
pub open spec fn forwarded_bucket(c: Result<BucketCmdView, StatusView>) -> Result<u128, StatusView> {
    match c {
        Err(e) => Err(e),
        Ok(c) => Ok(c.request_id),
    }
}

/// Whether the fields of a handed-on request carry identifier `id`, the empty bucket, and
/// key `k`.
pub open spec fn carries(
    id: Option<rpc::Uuid>,
    bucket: Option<rpc::Bucket>,
    key: Option<Key>,
    target_id: u128,
    target_key: Seq<u8>,
) -> bool {
    &&& id matches Some(u) && join_halves(u.hi, u.lo) == target_id
    &&& bucket matches Some(b) && b@ == Seq::<char>::empty()
    &&& key matches Some(k) && k@ == target_key
}

/// Whether a handed-on request, or its refusal, is `expected`.
pub open spec fn forwards_key(
    r: Result<(Option<rpc::Uuid>, Option<rpc::Bucket>, Option<Key>), StatusView>,
    expected: Result<(u128, Seq<u8>), StatusView>,
) -> bool {
    match (r, expected) {
        (Ok((i, b, k)), Ok((ti, tk))) => carries(i, b, k, ti, tk),
        (Err(e), Err(f)) => e == f,
        _ => false,
    }
}

/// The fields of a handed-on read, or its refusal.
pub open spec fn get_fields(r: Result<GetRequest, Status>) -> Result<
    (Option<rpc::Uuid>, Option<rpc::Bucket>, Option<Key>),
    StatusView,
> {
    match r {
        Ok(g) => Ok((g.request_id, g.bucket, g.key)),
        Err(e) => Err(e@),
    }
}

/// The fields of a handed-on removal, or its refusal.
pub open spec fn del_fields(r: Result<DelRequest, Status>) -> Result<
    (Option<rpc::Uuid>, Option<rpc::Bucket>, Option<Key>),
    StatusView,
> {
    match r {
        Ok(g) => Ok((g.request_id, g.bucket, g.key)),
        Err(e) => Err(e@),
    }
}

/// The fields of a handed-on question, or its refusal.
pub open spec fn exists_fields(r: Result<ExistsRequest, Status>) -> Result<
    (Option<rpc::Uuid>, Option<rpc::Bucket>, Option<Key>),
    StatusView,
> {
    match r {
        Ok(g) => Ok((g.request_id, g.bucket, g.key)),
        Err(e) => Err(e@),
    }
}

/// Whether a handed-on write, or its refusal, is `expected`.
pub open spec fn forwards_write(
    r: Result<(Option<rpc::Uuid>, Option<rpc::Bucket>, Option<Key>, Option<Val>), StatusView>,
    expected: Result<(u128, Seq<u8>, Seq<u8>), StatusView>,
) -> bool {
    match (r, expected) {
        (Ok((i, b, k, v)), Ok((ti, tk, tv))) => carries(i, b, k, ti, tk) && (v matches Some(x)
            && x@ == tv),
        (Err(e), Err(f)) => e == f,
        _ => false,
    }
}

/// The fields of a handed-on write, or its refusal.
pub open spec fn set_fields(r: Result<SetRequest, Status>) -> Result<
    (Option<rpc::Uuid>, Option<rpc::Bucket>, Option<Key>, Option<Val>),
    StatusView,
> {
    match r {
        Ok(g) => Ok((g.request_id, g.bucket, g.key, g.val)),
        Err(e) => Err(e@),
    }
}

/// The fields of a handed-on insert, or its refusal.
pub open spec fn insert_fields(r: Result<InsertRequest, Status>) -> Result<
    (Option<rpc::Uuid>, Option<rpc::Bucket>, Option<Key>, Option<Val>),
    StatusView,
> {
    match r {
        Ok(g) => Ok((g.request_id, g.bucket, g.key, g.val)),
        Err(e) => Err(e@),
    }
}

/// Whether a handed-on truncation, or its refusal, is `expected`.
pub open spec fn forwards_truncate(r: Result<TruncateRequest, Status>, expected: Result<u128, StatusView>) -> bool {
    match (r, expected) {
        (Ok(t), Ok(ti)) => {
            &&& t.request_id matches Some(u) && join_halves(u.hi, u.lo) == ti
            &&& t.bucket matches Some(b) && b@ == Seq::<char>::empty()
        },
        (Err(e), Err(f)) => e@ == f,
        _ => false,
    }
}

/// A service that folds each request's bucket into its key with `virtual_bucket`, and hands
/// the request on, with the empty bucket, to `simple`.
pub struct SimpleKvSvc<P, K, C> {
    virtual_bucket: P,
    simple: K,
    checker: C,
}

/// The identifier and the empty bucket that a handed-on request carries.
fn forwarded_header(id: Uuid) -> (h: (rpc::Uuid, rpc::Bucket))
    ensures
        join_halves(h.0.hi, h.0.lo) == id@,
        h.1@ == Seq::<char>::empty(),
{
    let u = rpc::Uuid::from(id);
    proof {
        lemma_new_undoes_split(id@);
    }
    (u, rpc::Bucket::from(Bucket::default()))
}

impl<P: BucketAsPrefix, K, C: Checker> SimpleKvSvc<P, K, C> {
    /// How buckets are folded into keys.
    pub closed spec fn prefixer(&self) -> P {
        self.virtual_bucket
    }

    /// The checker of the requests' buckets.
    pub closed spec fn checker(&self) -> C {
        self.checker
    }

    /// The service that requests are handed on to.
    pub closed spec fn simple(&self) -> K {
        self.simple
    }

    /// The service that requests are handed on to.
    pub fn inner(&self) -> (k: &K)
        ensures
            *k == self.simple(),
    {
        &self.simple
    }

    fn fold_key(&self, id: Uuid, bucket: &Bucket, key: &Key) -> (r: Result<
        (rpc::Uuid, rpc::Bucket, Key),
        Status,
    >)
        ensures
            forwards_key(
                match r {
                    Ok((i, b, k)) => Ok((Some(i), Some(b), Some(k))),
                    Err(e) => Err(e@),
                },
                match self.prefixer().prefixed_key(bucket@, key@) {
                    Ok(k) => Ok((id@, k)),
                    Err(e) => Err(e),
                },
            ),
    {
        let neo = self.virtual_bucket.key_with_bucket(bucket, key);
        let neo = match neo {
            Ok(k) => k,
            Err(e) => return Err(e),
        };
        let (u, b) = forwarded_header(id);
        Ok((u, b, neo))
    }

    /// The read to hand on for a read validated into `checked`.
    pub fn forward_get_checked(&self, checked: Result<GetReq, Status>) -> (r: Result<GetRequest, Status>)
        ensures
            forwards_key(get_fields(r), forwarded_key(self.prefixer(), cmd_result(checked))),
    {
        let checked = match checked {
            Ok(c) => c,
            Err(e) => return Err(e),
        };
        match self.fold_key(checked.as_request(), checked.as_bucket(), checked.as_key()) {
            Ok((u, b, k)) => Ok(GetRequest { request_id: Some(u), bucket: Some(b), key: Some(k) }),
            Err(e) => Err(e),
        }
    }

    /// The read to hand on for `req`, or why it is refused.
    pub fn forward_get(&self, req: GetRequest) -> (r: Result<GetRequest, Status>)
        ensures
            exists|checked: Result<Seq<char>, StatusView>|
                checked_by(&self.checker(), req.request_id, req.bucket, checked) && forwards_key(
                    get_fields(r),
                    forwarded_key(
                        self.prefixer(),
                        key_cmd_outcome(req.request_id, req.bucket, req.key, checked),
                    ),
                ),
    {
        let ghost g = req;
        let checked = GetReq::new(req, &self.checker);
        let ghost ch = choose|ch: Result<Seq<char>, StatusView>|
            checked_by(&self.checker, g.request_id, g.bucket, ch) && cmd_result(checked)
                == key_cmd_outcome(g.request_id, g.bucket, g.key, ch);
        let r = self.forward_get_checked(checked);
        assert(checked_by(&self.checker(), g.request_id, g.bucket, ch) && forwards_key(
            get_fields(r),
            forwarded_key(self.prefixer(), key_cmd_outcome(g.request_id, g.bucket, g.key, ch)),
        ));
        r
    }

    /// The question to hand on for a question validated into `checked`.
    pub fn forward_exist_checked(&self, checked: Result<ExistsReq, Status>) -> (r: Result<
        ExistsRequest,
        Status,
    >)
        ensures
            forwards_key(exists_fields(r), forwarded_key(self.prefixer(), cmd_result(checked))),
    {
        let checked = match checked {
            Ok(c) => c,
            Err(e) => return Err(e),
        };
        match self.fold_key(checked.as_request(), checked.as_bucket(), checked.as_key()) {
            Ok((u, b, k)) => Ok(
                ExistsRequest { request_id: Some(u), bucket: Some(b), key: Some(k) },
            ),
            Err(e) => Err(e),
        }
    }

    /// The question to hand on for `req`, or why it is refused.
    pub fn forward_exist(&self, req: ExistsRequest) -> (r: Result<ExistsRequest, Status>)
        ensures
            exists|checked: Result<Seq<char>, StatusView>|
                checked_by(&self.checker(), req.request_id, req.bucket, checked) && forwards_key(
                    exists_fields(r),
                    forwarded_key(
                        self.prefixer(),
                        key_cmd_outcome(req.request_id, req.bucket, req.key, checked),
                    ),
                ),
    {
        let ghost g = req;
        let checked = ExistsReq::new(req, &self.checker);
        let ghost ch = choose|ch: Result<Seq<char>, StatusView>|
            checked_by(&self.checker, g.request_id, g.bucket, ch) && cmd_result(checked)
                == key_cmd_outcome(g.request_id, g.bucket, g.key, ch);
        let r = self.forward_exist_checked(checked);
        assert(checked_by(&self.checker(), g.request_id, g.bucket, ch) && forwards_key(
            exists_fields(r),
            forwarded_key(self.prefixer(), key_cmd_outcome(g.request_id, g.bucket, g.key, ch)),
        ));
        r
    }

    /// The removal to hand on for a removal validated into `checked`.
    pub fn forward_del_checked(&self, checked: Result<DelReq, Status>) -> (r: Result<DelRequest, Status>)
        ensures
            forwards_key(del_fields(r), forwarded_key(self.prefixer(), cmd_result(checked))),
    {
        let checked = match checked {
            Ok(c) => c,
            Err(e) => return Err(e),
        };
        match self.fold_key(checked.as_request(), checked.as_bucket(), checked.as_key()) {
            Ok((u, b, k)) => Ok(DelRequest { request_id: Some(u), bucket: Some(b), key: Some(k) }),
            Err(e) => Err(e),
        }
    }

    /// The removal to hand on for `req`, or why it is refused.
    pub fn forward_del(&self, req: DelRequest) -> (r: Result<DelRequest, Status>)
        ensures
            exists|checked: Result<Seq<char>, StatusView>|
                checked_by(&self.checker(), req.request_id, req.bucket, checked) && forwards_key(
                    del_fields(r),
                    forwarded_key(
                        self.prefixer(),
                        key_cmd_outcome(req.request_id, req.bucket, req.key, checked),
                    ),
                ),
    {
        let ghost g = req;
        let checked = DelReq::new(req, &self.checker);
        let ghost ch = choose|ch: Result<Seq<char>, StatusView>|
            checked_by(&self.checker, g.request_id, g.bucket, ch) && cmd_result(checked)
                == key_cmd_outcome(g.request_id, g.bucket, g.key, ch);
        let r = self.forward_del_checked(checked);
        assert(checked_by(&self.checker(), g.request_id, g.bucket, ch) && forwards_key(
            del_fields(r),
            forwarded_key(self.prefixer(), key_cmd_outcome(g.request_id, g.bucket, g.key, ch)),
        ));
        r
    }

    fn fold_write(&self, id: Uuid, bucket: &Bucket, key: &Key, val: Val) -> (r: Result<
        (rpc::Uuid, rpc::Bucket, Key, Val),
        Status,
    >)
        ensures
            forwards_write(
                match r {
                    Ok((i, b, k, v)) => Ok((Some(i), Some(b), Some(k), Some(v))),
                    Err(e) => Err(e@),
                },
                match self.prefixer().prefixed_key(bucket@, key@) {
                    Ok(k) => Ok((id@, k, val@)),
                    Err(e) => Err(e),
                },
            ),
    {
        let neo = self.virtual_bucket.key_with_bucket(bucket, key);
        let neo = match neo {
            Ok(k) => k,
            Err(e) => return Err(e),
        };
        let (u, b) = forwarded_header(id);
        Ok((u, b, neo, val))
    }

    /// The write to hand on for a write validated into `checked`.
    pub fn forward_set_checked(&self, checked: Result<SetReq, Status>) -> (r: Result<SetRequest, Status>)
        ensures
            forwards_write(set_fields(r), forwarded_write(self.prefixer(), cmd_result(checked))),
    {
        let checked = match checked {
            Ok(c) => c,
            Err(e) => return Err(e),
        };
        let id = checked.as_request();
        let (b, key, val) = checked.into_unpacked();
        match self.fold_write(id, &b, &key, val) {
            Ok((u, b, k, v)) => Ok(
                SetRequest { request_id: Some(u), bucket: Some(b), key: Some(k), val: Some(v) },
            ),
            Err(e) => Err(e),
        }
    }

    /// The write to hand on for `req`, or why it is refused.
    pub fn forward_set(&self, req: SetRequest) -> (r: Result<SetRequest, Status>)
        ensures
            exists|checked: Result<Seq<char>, StatusView>|
                checked_by(&self.checker(), req.request_id, req.bucket, checked) && forwards_write(
                    set_fields(r),
                    forwarded_write(
                        self.prefixer(),
                        write_cmd_outcome(req.request_id, req.bucket, req.key, req.val, checked),
                    ),
                ),
    {
        let ghost g = req;
        let checked = SetReq::new(req, &self.checker);
        let ghost ch = choose|ch: Result<Seq<char>, StatusView>|
            checked_by(&self.checker, g.request_id, g.bucket, ch) && cmd_result(checked)
                == write_cmd_outcome(g.request_id, g.bucket, g.key, g.val, ch);
        let r = self.forward_set_checked(checked);
        assert(checked_by(&self.checker(), g.request_id, g.bucket, ch) && forwards_write(
            set_fields(r),
            forwarded_write(
                self.prefixer(),
                write_cmd_outcome(g.request_id, g.bucket, g.key, g.val, ch),
            ),
        ));
        r
    }

    /// The insert to hand on for an insert validated into `checked`.
    pub fn forward_insert_checked(&self, checked: Result<InsertReq, Status>) -> (r: Result<
        InsertRequest,
        Status,
    >)
        ensures
            forwards_write(insert_fields(r), forwarded_write(self.prefixer(), cmd_result(checked))),
    {
        let checked = match checked {
            Ok(c) => c,
            Err(e) => return Err(e),
        };
        let id = checked.as_request();
        let (b, key, val) = checked.into_unpacked();
        match self.fold_write(id, &b, &key, val) {
            Ok((u, b, k, v)) => Ok(
                InsertRequest { request_id: Some(u), bucket: Some(b), key: Some(k), val: Some(v) },
            ),
            Err(e) => Err(e),
        }
    }

    /// The insert to hand on for `req`, or why it is refused.
    pub fn forward_insert(&self, req: InsertRequest) -> (r: Result<InsertRequest, Status>)
        ensures
            exists|checked: Result<Seq<char>, StatusView>|
                checked_by(&self.checker(), req.request_id, req.bucket, checked) && forwards_write(
                    insert_fields(r),
                    forwarded_write(
                        self.prefixer(),
                        write_cmd_outcome(req.request_id, req.bucket, req.key, req.val, checked),
                    ),
                ),
    {
        let ghost g = req;
        let checked = InsertReq::new(req, &self.checker);
        let ghost ch = choose|ch: Result<Seq<char>, StatusView>|
            checked_by(&self.checker, g.request_id, g.bucket, ch) && cmd_result(checked)
                == write_cmd_outcome(g.request_id, g.bucket, g.key, g.val, ch);
        let r = self.forward_insert_checked(checked);
        assert(checked_by(&self.checker(), g.request_id, g.bucket, ch) && forwards_write(
            insert_fields(r),
            forwarded_write(
                self.prefixer(),
                write_cmd_outcome(g.request_id, g.bucket, g.key, g.val, ch),
            ),
        ));
        r
    }

    /// The truncation to hand on for a truncation validated into `checked`: it names the
    /// empty bucket, so it reaches every key of the service handed on to.
    pub fn forward_truncate_checked(&self, checked: Result<TruncateReq, Status>) -> (r: Result<
        TruncateRequest,
        Status,
    >)
        ensures
            forwards_truncate(r, forwarded_bucket(cmd_result(checked))),
    {
        let checked = match checked {
            Ok(c) => c,
            Err(e) => return Err(e),
        };
        let (u, b) = forwarded_header(checked.as_request());
        Ok(TruncateRequest { request_id: Some(u), bucket: Some(b) })
    }

    /// The truncation to hand on for `req`, or why it is refused.
    pub fn forward_truncate(&self, req: TruncateRequest) -> (r: Result<TruncateRequest, Status>)
        ensures
            exists|checked: Result<Seq<char>, StatusView>|
                checked_by(&self.checker(), req.request_id, req.bucket, checked) && forwards_truncate(
                    r,
                    forwarded_bucket(bucket_cmd_outcome(req.request_id, req.bucket, checked)),
                ),
    {
        let ghost g = req;
        let checked = TruncateReq::new(req, &self.checker);
        let ghost ch = choose|ch: Result<Seq<char>, StatusView>|
            checked_by(&self.checker, g.request_id, g.bucket, ch) && cmd_result(checked)
                == bucket_cmd_outcome(g.request_id, g.bucket, ch);
        let r = self.forward_truncate_checked(checked);
        assert(checked_by(&self.checker(), g.request_id, g.bucket, ch) && forwards_truncate(
            r,
            forwarded_bucket(bucket_cmd_outcome(g.request_id, g.bucket, ch)),
        ));
        r
    }
}

/// A service that folds buckets into keys with `virtual_bucket`, checks buckets with
/// `checker`, and hands requests on to `original`.
pub fn bucket_as_prefix_svc_new<P, K, C>(virtual_bucket: P, original: K, checker: C) -> (s:
    SimpleKvSvc<P, K, C>)
    where
        P: BucketAsPrefix,
        C: Checker,
    ensures
        s.prefixer() == virtual_bucket,
        s.simple() == original,
        s.checker() == checker,
{
    SimpleKvSvc { virtual_bucket, simple: original, checker }
}

} // verus!
