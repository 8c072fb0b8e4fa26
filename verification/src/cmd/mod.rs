//! Commands: requests whose fields were found present and whose bucket was checked.

pub mod del;
pub mod drop;
pub mod exist;
pub mod get;
pub mod insert;
pub mod set;
pub mod truncate;

use vstd::prelude::*;

use crate::bucket::bkt::{bucket_result_view, Bucket};
use crate::bucket::checker::Checker;
use crate::rpc;
use crate::status::{rendered, Code, Status, StatusView};
use crate::text::hex_digits;
use crate::uuid::{join_halves, Uuid};

verus! {

/// An invalid-argument status with the given message.
pub open spec fn invalid(message: Seq<char>) -> StatusView {
    StatusView { code: Code::InvalidArgument, message }
}

/// How a request identifier reads in messages: 32 hexadecimal digits.
pub open spec fn id_text(id: u128) -> Seq<char> {
    hex_digits(id as nat, 32)
}

/// The message for a missing field of the request `id`.
pub open spec fn missing_text(field: Seq<char>, id: u128) -> Seq<char> {
    field + " missing. request id: "@ + id_text(id)
}

/// The message for a bucket of the request `id` that was missing or refused with `e`.
pub open spec fn invalid_bucket_text(id: u128, e: StatusView) -> Seq<char> {
    "invalid bucket(request id="@ + id_text(id) + "): "@ + rendered(e)
}

/// The request identifier, or the refusal when there is none.
pub open spec fn request_id_outcome(id: Option<rpc::Uuid>) -> Result<u128, StatusView> {
    match id {
        None => Err(invalid("request id missing"@)),
        Some(g) => Ok(join_halves(g.hi, g.lo) as u128),
    }
}

/// The checked bucket of the request `id`, given what the checker made of it.
pub open spec fn bucket_outcome(
    id: u128,
    bucket: Option<rpc::Bucket>,
    checked: Result<Seq<char>, StatusView>,
) -> Result<Seq<char>, StatusView> {
    match bucket {
        None => Err(invalid(invalid_bucket_text(id, invalid(missing_text("bucket"@, id))))),
        Some(_) => match checked {
            Ok(c) => Ok(c),
            Err(e) => Err(invalid(invalid_bucket_text(id, e))),
        },
    }
}

/// A field of the request `id` that must be present.
pub open spec fn field_outcome<T>(id: u128, field: Seq<char>, v: Option<T>) -> Result<T, StatusView> {
    match v {
        None => Err(invalid(missing_text(field, id))),
        Some(x) => Ok(x),
    }
}

/// Whether `checked` may be what `checker` makes of the bucket, when there is one.
pub open spec fn bucket_checked_by<C: Checker>(
    checker: &C,
    bucket: Option<rpc::Bucket>,
    checked: Result<Seq<char>, StatusView>,
) -> bool {
    match bucket {
        Some(b) => checker.checks(b@, checked),
        None => true,
    }
}

/// Whether `checked` may be what `checker` makes of the bucket, when the request has an
/// identifier and a bucket (the checker is called on no other request).
pub open spec fn checked_by<C: Checker>(
    checker: &C,
    id: Option<rpc::Uuid>,
    bucket: Option<rpc::Bucket>,
    checked: Result<Seq<char>, StatusView>,
) -> bool {
    id is Some ==> bucket_checked_by(checker, bucket, checked)
}

/// What the checker that accepts everything makes of the bucket.
pub open spec fn unchecked(bucket: Option<rpc::Bucket>) -> Result<Seq<char>, StatusView> {
    match bucket {
        Some(b) => Ok(b@),
        None => Ok(Seq::empty()),
    }
}

/// A command that names a bucket.
pub struct BucketCmdView {
    pub request_id: u128,
    pub bucket: Seq<char>,
}

/// A command that names a key of a bucket.
pub struct KeyCmdView {
    pub request_id: u128,
    pub bucket: Seq<char>,
    pub key: Seq<u8>,
}

/// A command that binds a key of a bucket to a value.
pub struct WriteCmdView {
    pub request_id: u128,
    pub bucket: Seq<char>,
    pub key: Seq<u8>,
    pub val: Seq<u8>,
}

/// What a validation gave back, by value.
pub open spec fn cmd_result<T: View>(r: Result<T, Status>) -> Result<T::V, StatusView> {
    match r {
        Ok(c) => Ok(c@),
        Err(e) => Err(e@),
    }
}

/// A bucket command, or why the request is refused.
pub open spec fn bucket_cmd_outcome(
    id: Option<rpc::Uuid>,
    bucket: Option<rpc::Bucket>,
    checked: Result<Seq<char>, StatusView>,
) -> Result<BucketCmdView, StatusView> {
    match request_id_outcome(id) {
        Err(e) => Err(e),
        Ok(rid) => match bucket_outcome(rid, bucket, checked) {
            Err(e) => Err(e),
            Ok(b) => Ok(BucketCmdView { request_id: rid, bucket: b }),
        },
    }
}

/// A key command, or why the request is refused.
pub open spec fn key_cmd_outcome(
    id: Option<rpc::Uuid>,
    bucket: Option<rpc::Bucket>,
    key: Option<rpc::Key>,
    checked: Result<Seq<char>, StatusView>,
) -> Result<KeyCmdView, StatusView> {
    match bucket_cmd_outcome(id, bucket, checked) {
        Err(e) => Err(e),
        Ok(c) => match field_outcome(c.request_id, "key"@, key) {
            Err(e) => Err(e),
            Ok(k) => Ok(KeyCmdView { request_id: c.request_id, bucket: c.bucket, key: k@ }),
        },
    }
}

/// A write command, or why the request is refused.
pub open spec fn write_cmd_outcome(
    id: Option<rpc::Uuid>,
    bucket: Option<rpc::Bucket>,
    key: Option<rpc::Key>,
    val: Option<rpc::Val>,
    checked: Result<Seq<char>, StatusView>,
) -> Result<WriteCmdView, StatusView> {
    match key_cmd_outcome(id, bucket, key, checked) {
        Err(e) => Err(e),
        Ok(c) => match field_outcome(c.request_id, "val"@, val) {
            Err(e) => Err(e),
            Ok(v) => Ok(
                WriteCmdView { request_id: c.request_id, bucket: c.bucket, key: c.key, val: v@ },
            ),
        },
    }
}

/// A request with an identifier, a bucket that the checker turned into `c`, a key and a
/// value is a command carrying exactly those.
pub proof fn lemma_cmd_fields(u: rpc::Uuid, b: rpc::Bucket, k: rpc::Key, v: rpc::Val, c: Seq<char>)
    ensures
        bucket_cmd_outcome(Some(u), Some(b), Ok(c)) == Ok::<BucketCmdView, StatusView>(
            BucketCmdView { request_id: join_halves(u.hi, u.lo) as u128, bucket: c },
        ),
        key_cmd_outcome(Some(u), Some(b), Some(k), Ok(c)) == Ok::<KeyCmdView, StatusView>(
            KeyCmdView { request_id: join_halves(u.hi, u.lo) as u128, bucket: c, key: k@ },
        ),
        write_cmd_outcome(Some(u), Some(b), Some(k), Some(v), Ok(c)) == Ok::<
            WriteCmdView,
            StatusView,
        >(
            WriteCmdView {
                request_id: join_halves(u.hi, u.lo) as u128,
                bucket: c,
                key: k@,
                val: v@,
            },
        ),
{
}

/// A request that lacks its identifier, its bucket, its key or its value, or whose bucket
/// the checker refused, is refused with an invalid-argument status.
pub proof fn lemma_cmd_refusals(
    id: Option<rpc::Uuid>,
    bucket: Option<rpc::Bucket>,
    key: Option<rpc::Key>,
    val: Option<rpc::Val>,
    checked: Result<Seq<char>, StatusView>,
)
    ensures
        (id is None || bucket is None || checked is Err) ==> bucket_cmd_outcome(id, bucket, checked)
            is Err,
        (id is None || bucket is None || checked is Err || key is None) ==> key_cmd_outcome(
            id,
            bucket,
            key,
            checked,
        ) is Err,
        (id is None || bucket is None || checked is Err || key is None || val is None)
            ==> write_cmd_outcome(id, bucket, key, val, checked) is Err,
        bucket_cmd_outcome(id, bucket, checked) is Err ==> bucket_cmd_outcome(id, bucket, checked)->Err_0.code
            == Code::InvalidArgument,
        key_cmd_outcome(id, bucket, key, checked) is Err ==> key_cmd_outcome(id, bucket, key, checked)->Err_0.code
            == Code::InvalidArgument,
        write_cmd_outcome(id, bucket, key, val, checked) is Err ==> write_cmd_outcome(
            id,
            bucket,
            key,
            val,
            checked,
        )->Err_0.code == Code::InvalidArgument,
{
}

/// The status for a missing field of the request `id`.
fn missing(field: &str, id: &Uuid) -> (s: Status)
    ensures
        s@ == invalid(missing_text(field@, id@)),
{
    let mut m = String::new();
    m.append(field);
    m.append(" missing. request id: ");
    let t = id.to_string();
    m.append(t.as_str());
    Status::invalid_argument(m)
}

/// The status for a bucket of the request `id` that was missing or refused with `e`.
fn invalid_bucket(id: &Uuid, e: &Status) -> (s: Status)
    ensures
        s@ == invalid(invalid_bucket_text(id@, e@)),
{
    let mut m = String::new();
    m.append("invalid bucket(request id=");
    let t = id.to_string();
    m.append(t.as_str());
    m.append("): ");
    let r = e.to_string();
    m.append(r.as_str());
    Status::invalid_argument(m)
}

/// The request identifier, or the refusal when there is none.
fn request_id_of(id: Option<rpc::Uuid>) -> (r: Result<Uuid, Status>)
    ensures
        match (r, request_id_outcome(id)) {
            (Ok(u), Ok(v)) => u@ == v,
            (Err(e), Err(f)) => e@ == f,
            _ => false,
        },
{
    match id {
        Some(g) => Ok(Uuid::from(&g)),
        None => {
            let mut m = String::new();
            m.append("request id missing");
            Err(Status::invalid_argument(m))
        },
    }
}

/// The checked bucket of the request `id`, or why it is refused.
fn checked_bucket<C: Checker>(id: &Uuid, bucket: Option<rpc::Bucket>, checker: &C) -> (r: Result<
    Bucket,
    Status,
>)
    ensures
        exists|checked: Result<Seq<char>, StatusView>|
            bucket_checked_by(checker, bucket, checked) && bucket_result_view(r) == bucket_outcome(
                id@,
                bucket,
                checked,
            ),
{
    match bucket {
        None => {
            let inner = missing("bucket", id);
            let r: Result<Bucket, Status> = Err(invalid_bucket(id, &inner));
            assert(bucket_checked_by(checker, bucket, Ok(Seq::empty()))
                && bucket_result_view(r) == bucket_outcome(id@, bucket, Ok(Seq::empty())));
            r
        },
        Some(b) => {
            let made = Bucket::new(b.b, checker);
            let ghost out = bucket_result_view(made);
            let r = match made {
                Ok(c) => Ok(c),
                Err(e) => Err(invalid_bucket(id, &e)),
            };
            assert(bucket_checked_by(checker, bucket, out) && bucket_result_view(r)
                == bucket_outcome(id@, bucket, out));
            r
        },
    }
}

/// The parts of a bucket command, or why the request is refused.
pub(crate) fn parse_bucket_cmd<C: Checker>(
    id: Option<rpc::Uuid>,
    bucket: Option<rpc::Bucket>,
    checker: &C,
) -> (r: Result<(Uuid, Bucket), Status>)
    ensures
        exists|checked: Result<Seq<char>, StatusView>|
            checked_by(checker, id, bucket, checked) && match (r, bucket_cmd_outcome(id, bucket, checked)) {
                (Ok(p), Ok(c)) => p.0@ == c.request_id && p.1@ == c.bucket,
                (Err(e), Err(f)) => e@ == f,
                _ => false,
            },
{
    let rid = match request_id_of(id) {
        Ok(u) => u,
        Err(e) => {
            let r: Result<(Uuid, Bucket), Status> = Err(e);
            assert(checked_by(checker, id, bucket, Ok(Seq::empty())) && match (
                r,
                bucket_cmd_outcome(id, bucket, Ok(Seq::empty())),
            ) {
                (Ok(p), Ok(c)) => p.0@ == c.request_id && p.1@ == c.bucket,
                (Err(e), Err(f)) => e@ == f,
                _ => false,
            });
            return r;
        },
    };
    let b = checked_bucket(&rid, bucket, checker);
    let ghost checked = choose|checked: Result<Seq<char>, StatusView>|
        bucket_checked_by(checker, bucket, checked) && bucket_result_view(b) == bucket_outcome(
            rid@,
            bucket,
            checked,
        );
    let r = match b {
        Ok(b) => Ok((rid, b)),
        Err(e) => Err(e),
    };
    assert(checked_by(checker, id, bucket, checked) && match (
        r,
        bucket_cmd_outcome(id, bucket, checked),
    ) {
        (Ok(p), Ok(c)) => p.0@ == c.request_id && p.1@ == c.bucket,
        (Err(e), Err(f)) => e@ == f,
        _ => false,
    });
    r
}

/// The parts of a key command, or why the request is refused.
pub(crate) fn parse_key_cmd<C: Checker>(
    id: Option<rpc::Uuid>,
    bucket: Option<rpc::Bucket>,
    key: Option<rpc::Key>,
    checker: &C,
) -> (r: Result<(Uuid, Bucket, rpc::Key), Status>)
    ensures
        exists|checked: Result<Seq<char>, StatusView>|
            checked_by(checker, id, bucket, checked) && match (r, key_cmd_outcome(id, bucket, key, checked)) {
                (Ok(p), Ok(c)) => p.0@ == c.request_id && p.1@ == c.bucket && p.2@ == c.key,
                (Err(e), Err(f)) => e@ == f,
                _ => false,
            },
{
    let (rid, b) = match parse_bucket_cmd(id, bucket, checker) {
        Ok(p) => p,
        Err(e) => return Err(e),
    };
    match key {
        Some(k) => Ok((rid, b, k)),
        None => Err(missing("key", &rid)),
    }
}

/// The parts of a write command, or why the request is refused.
pub(crate) fn parse_write_cmd<C: Checker>(
    id: Option<rpc::Uuid>,
    bucket: Option<rpc::Bucket>,
    key: Option<rpc::Key>,
    val: Option<rpc::Val>,
    checker: &C,
) -> (r: Result<(Uuid, Bucket, rpc::Key, rpc::Val), Status>)
    ensures
        exists|checked: Result<Seq<char>, StatusView>|
            checked_by(checker, id, bucket, checked) && match (
                r,
                write_cmd_outcome(id, bucket, key, val, checked),
            ) {
                (Ok(p), Ok(c)) => p.0@ == c.request_id && p.1@ == c.bucket && p.2@ == c.key
                    && p.3@ == c.val,
                (Err(e), Err(f)) => e@ == f,
                _ => false,
            },
{
    let (rid, b, k) = match parse_key_cmd(id, bucket, key, checker) {
        Ok(p) => p,
        Err(e) => return Err(e),
    };
    match val {
        Some(v) => Ok((rid, b, k, v)),
        None => Err(missing("val", &rid)),
    }
}

} // verus!
