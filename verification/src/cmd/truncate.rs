//! Validated requests to empty a bucket.

use vstd::prelude::*;

use crate::bucket::bkt::Bucket;
use crate::bucket::checker::{Checker, NoChecker};
use crate::cmd::{bucket_cmd_outcome, cmd_result, checked_by, parse_bucket_cmd, unchecked, BucketCmdView};
use crate::rpc::{TruncateRequest};
use crate::status::{Status, StatusView};
use crate::uuid::Uuid;

verus! {

/// A validated `TruncateRequest`.
pub struct TruncateReq {
    request_id: Uuid,
    bucket: Bucket,
}

impl View for TruncateReq {
    type V = BucketCmdView;

    closed spec fn view(&self) -> BucketCmdView {
        BucketCmdView { request_id: self.request_id@, bucket: self.bucket@ }
    }
}

impl TruncateReq {
    /// Validates a request: it must carry an identifier and a bucket that `checker` accepts.
    pub fn new<C>(g: TruncateRequest, checker: &C) -> (r: Result<Self, Status>)
        where
            C: Checker,
        ensures
            exists|checked: Result<Seq<char>, StatusView>|
                checked_by(checker, g.request_id, g.bucket, checked) && cmd_result(r)
                    == bucket_cmd_outcome(g.request_id, g.bucket, checked),
    {
        match parse_bucket_cmd(g.request_id, g.bucket, checker) {
            Ok((request_id, bucket)) => Ok(Self { request_id, bucket }),
            Err(e) => Err(e),
        }
    }

    /// The request identifier.
    pub fn as_request(&self) -> (u: Uuid)
        ensures
            u@ == self@.request_id,
    {
        self.request_id
    }

    /// The checked bucket.
    pub fn as_bucket(&self) -> (b: &Bucket)
        ensures
            b@ == self@.bucket,
    {
        &self.bucket
    }
}

impl TryFrom<TruncateRequest> for TruncateReq {
    type Error = Status;

    /// Validates a request without checking its bucket.
    fn try_from(g: TruncateRequest) -> (r: Result<Self, Status>)
        ensures
            cmd_result(r) == bucket_cmd_outcome(g.request_id, g.bucket, unchecked(g.bucket)),
    {
        let nochk = NoChecker::default();
        Self::new(g, &nochk)
    }
}

impl vstd::std_specs::convert::TryFromSpecImpl<TruncateRequest> for TruncateReq {
    open spec fn obeys_try_from_spec() -> bool {
        false
    }

    open spec fn try_from_spec(g: TruncateRequest) -> Result<Self, Status> {
        arbitrary()
    }
}

} // verus!
