//! The request-level interface of a store: each method takes a request and answers it.
//! The time of the answer is handed in by the caller.

use vstd::prelude::*;

use crate::rpc::{
    DelRequest, DelResponse, DropRequest, DropResponse, ExistsRequest, ExistsResponse, GetRequest,
    GetResponse, InsertRequest, InsertResponse, SetRequest, SetResponse, Timestamp,
    TruncateRequest, TruncateResponse,
};
use crate::status::Status;

verus! {

/// A store that answers requests.
pub trait KeyValue {
    /// The value of a key.
    fn get(&self, req: GetRequest, now: Timestamp) -> Result<GetResponse, Status>;

    /// Whether a key is bound.
    fn exist(&self, req: ExistsRequest) -> Result<ExistsResponse, Status>;

    /// Binds a key to a value.
    fn set(&mut self, req: SetRequest, now: Timestamp) -> Result<SetResponse, Status>;

    /// Unbinds a key.
    fn del(&mut self, req: DelRequest, now: Timestamp) -> Result<DelResponse, Status>;

    /// Unbinds every key of a bucket.
    fn truncate(&mut self, req: TruncateRequest, now: Timestamp) -> Result<
        TruncateResponse,
        Status,
    >;

    /// Drops a bucket.
    fn drop(&mut self, req: DropRequest, now: Timestamp) -> Result<DropResponse, Status>;

    /// Binds a key that is not bound yet.
    fn insert(&mut self, req: InsertRequest, now: Timestamp) -> Result<InsertResponse, Status>;
}

} // verus!
