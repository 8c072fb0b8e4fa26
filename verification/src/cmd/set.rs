//! Validated requests to bind a key to a value.

use vstd::prelude::*;

use crate::bucket::bkt::Bucket;
use crate::bucket::checker::{Checker, NoChecker};
use crate::cmd::{cmd_result, checked_by, parse_write_cmd, unchecked, write_cmd_outcome, WriteCmdView};
use crate::rpc::{SetRequest, Key, Val};
use crate::status::{Status, StatusView};
use crate::uuid::Uuid;

verus! {

/// A validated `SetRequest`.
pub struct SetReq {
    request_id: Uuid,
    bucket: Bucket,
    key: Key,
    val: Val,
}

impl View for SetReq {
    type V = WriteCmdView;

    closed spec fn view(&self) -> WriteCmdView {
        WriteCmdView {
            request_id: self.request_id@,
            bucket: self.bucket@,
            key: self.key@,
            val: self.val@,
        }
    }
}

impl SetReq {
    /// Validates a request: it must carry an identifier, a bucket that `checker` accepts,
    /// a key and a value.
    pub fn new<C>(g: SetRequest, checker: &C) -> (r: Result<Self, Status>)
        where
            C: Checker,
        ensures
            exists|checked: Result<Seq<char>, StatusView>|
                checked_by(checker, g.request_id, g.bucket, checked) && cmd_result(r)
                    == write_cmd_outcome(g.request_id, g.bucket, g.key, g.val, checked),
    {
        match parse_write_cmd(g.request_id, g.bucket, g.key, g.val, checker) {
            Ok((request_id, bucket, key, val)) => Ok(Self { request_id, bucket, key, val }),
            Err(e) => Err(e),
        }
    }

    /// The key and the value.
    pub fn into_kv(self) -> (kv: (Key, Val))
        ensures
            kv.0@ == self@.key,
            kv.1@ == self@.val,
    {
        (self.key, self.val)
    }

    /// The request identifier.
    pub fn as_request(&self) -> (u: Uuid)
        ensures
            u@ == self@.request_id,
    {
        self.request_id
    }

    /// The key.
    pub fn as_key(&self) -> (k: &Key)
        ensures
            k@ == self@.key,
    {
        &self.key
    }

    /// The key's bytes.
    pub fn as_key_bytes(&self) -> (b: &[u8])
        ensures
            b@ == self@.key,
    {
        self.as_key().k.as_slice()
    }

    /// The checked bucket.
    pub fn as_bucket(&self) -> (b: &Bucket)
        ensures
            b@ == self@.bucket,
    {
        &self.bucket
    }

    /// The bucket, the key and the value.
    pub fn into_unpacked(self) -> (p: (Bucket, Key, Val))
        ensures
            p.0@ == self@.bucket,
            p.1@ == self@.key,
            p.2@ == self@.val,
    {
        (self.bucket, self.key, self.val)
    }
}

impl TryFrom<SetRequest> for SetReq {
    type Error = Status;

    /// Validates a request without checking its bucket.
    fn try_from(g: SetRequest) -> (r: Result<Self, Status>)
        ensures
            cmd_result(r) == write_cmd_outcome(g.request_id, g.bucket, g.key, g.val, unchecked(g.bucket)),
    {
        let nochk = NoChecker::default();
        Self::new(g, &nochk)
    }
}

impl vstd::std_specs::convert::TryFromSpecImpl<SetRequest> for SetReq {
    open spec fn obeys_try_from_spec() -> bool {
        false
    }

    open spec fn try_from_spec(g: SetRequest) -> Result<Self, Status> {
        arbitrary()
    }
}

} // verus!
