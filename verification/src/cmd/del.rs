//! Validated requests to remove a key.

use vstd::prelude::*;

use crate::bucket::bkt::Bucket;
use crate::bucket::checker::{Checker, NoChecker};
use crate::cmd::{cmd_result, checked_by, key_cmd_outcome, parse_key_cmd, unchecked, KeyCmdView};
use crate::rpc::{DelRequest, Key};
use crate::status::{Status, StatusView};
use crate::uuid::Uuid;

verus! {

/// A validated `DelRequest`.
pub struct DelReq {
    request_id: Uuid,
    bucket: Bucket,
    key: Key,
}

impl View for DelReq {
    type V = KeyCmdView;

    closed spec fn view(&self) -> KeyCmdView {
        KeyCmdView { request_id: self.request_id@, bucket: self.bucket@, key: self.key@ }
    }
}

impl DelReq {
    /// Validates a request: it must carry an identifier, a bucket that `checker` accepts,
    /// and a key.
    pub fn new<C>(g: DelRequest, checker: &C) -> (r: Result<Self, Status>)
        where
            C: Checker,
        ensures
            exists|checked: Result<Seq<char>, StatusView>|
                checked_by(checker, g.request_id, g.bucket, checked) && cmd_result(r)
                    == key_cmd_outcome(g.request_id, g.bucket, g.key, checked),
    {
        match parse_key_cmd(g.request_id, g.bucket, g.key, checker) {
            Ok((request_id, bucket, key)) => Ok(Self { request_id, bucket, key }),
            Err(e) => Err(e),
        }
    }

    /// The key.
    pub fn into_key(self) -> (k: Key)
        ensures
            k@ == self@.key,
    {
        self.key
    }

    /// The request identifier.
    pub fn as_request(&self) -> (u: Uuid)
        ensures
            u@ == self@.request_id,
    {
        self.request_id
    }

    /// The key.
    pub fn as_key(&self) -> (k: &Key)
        ensures
            k@ == self@.key,
    {
        &self.key
    }

    /// The key's bytes.
    pub fn as_key_bytes(&self) -> (b: &[u8])
        ensures
            b@ == self@.key,
    {
        self.as_key().k.as_slice()
    }

    /// The checked bucket.
    pub fn as_bucket(&self) -> (b: &Bucket)
        ensures
            b@ == self@.bucket,
    {
        &self.bucket
    }

    /// The bucket and the key.
    pub fn into_unpacked(self) -> (p: (Bucket, Key))
        ensures
            p.0@ == self@.bucket,
            p.1@ == self@.key,
    {
        (self.bucket, self.key)
    }
}

impl TryFrom<DelRequest> for DelReq {
    type Error = Status;

    /// Validates a request without checking its bucket.
    fn try_from(g: DelRequest) -> (r: Result<Self, Status>)
        ensures
            cmd_result(r) == key_cmd_outcome(g.request_id, g.bucket, g.key, unchecked(g.bucket)),
    {
        let nochk = NoChecker::default();
        Self::new(g, &nochk)
    }
}

impl vstd::std_specs::convert::TryFromSpecImpl<DelRequest> for DelReq {
    open spec fn obeys_try_from_spec() -> bool {
        false
    }

    open spec fn try_from_spec(g: DelRequest) -> Result<Self, Status> {
        arbitrary()
    }
}

} // verus!
