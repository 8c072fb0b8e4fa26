//! The messages of the key/value protocol (package `rkv.v1`).

pub mod del_response;
pub mod drop_response;
pub mod truncate_response;

use vstd::prelude::*;

verus! {

/// A request identifier on the wire: its high and its low 64 bits.
#[derive(Clone, Copy, PartialEq, Eq, Structural, Debug)]
pub struct Uuid {
    pub hi: u64,
    pub lo: u64,
}

/// A point in time: seconds and nanoseconds since the Unix epoch.
#[derive(Clone, Copy, PartialEq, Eq, Structural, Debug)]
pub struct Timestamp {
    pub seconds: i64,
    pub nanos: i32,
}

/// A bucket name on the wire.
pub struct Bucket {
    pub b: String,
}

/// A key: a byte string.
pub struct Key {
    pub k: Vec<u8>,
}

/// A value: a byte string.
pub struct Val {
    pub v: Vec<u8>,
}

impl View for Bucket {
    type V = Seq<char>;

    open spec fn view(&self) -> Seq<char> {
        self.b@
    }
}

impl View for Key {
    type V = Seq<u8>;

    open spec fn view(&self) -> Seq<u8> {
        self.k@
    }
}

impl View for Val {
    type V = Seq<u8>;

    open spec fn view(&self) -> Seq<u8> {
        self.v@
    }
}

impl Clone for Bucket {
    fn clone(&self) -> (c: Self)
        ensures
            c@ == self@,
    {
        Bucket { b: self.b.clone() }
    }
}

impl Clone for Key {
    fn clone(&self) -> (c: Self)
        ensures
            c@ == self@,
    {
        Key { k: self.k.clone() }
    }
}

impl Clone for Val {
    fn clone(&self) -> (c: Self)
        ensures
            c@ == self@,
    {
        Val { v: self.v.clone() }
    }
}

/// What an optional value holds, as a byte string.
pub open spec fn opt_val_view(v: Option<Val>) -> Option<Seq<u8>> {
    match v {
        Some(x) => Some(x@),
        None => None,
    }
}

/// Asks for the value of a key.
pub struct GetRequest {
    pub request_id: Option<Uuid>,
    pub bucket: Option<Bucket>,
    pub key: Option<Key>,
}

/// Asks to bind a key to a value, replacing what it was bound to.
pub struct SetRequest {
    pub request_id: Option<Uuid>,
    pub bucket: Option<Bucket>,
    pub key: Option<Key>,
    pub val: Option<Val>,
}

/// Asks to bind a key that is not yet bound.
pub struct InsertRequest {
    pub request_id: Option<Uuid>,
    pub bucket: Option<Bucket>,
    pub key: Option<Key>,
    pub val: Option<Val>,
}

/// Asks to remove a key.
pub struct DelRequest {
    pub request_id: Option<Uuid>,
    pub bucket: Option<Bucket>,
    pub key: Option<Key>,
}

/// Asks whether a key is bound.
pub struct ExistsRequest {
    pub request_id: Option<Uuid>,
    pub bucket: Option<Bucket>,
    pub key: Option<Key>,
}

/// Asks to remove every key of a bucket.
pub struct TruncateRequest {
    pub request_id: Option<Uuid>,
    pub bucket: Option<Bucket>,
}

/// Asks to drop a bucket.
pub struct DropRequest {
    pub request_id: Option<Uuid>,
    pub bucket: Option<Bucket>,
}

/// The value found, and when it was read.
pub struct GetResponse {
    pub val: Option<Val>,
    pub got: Option<Timestamp>,
}

/// When the value was set.
pub struct SetResponse {
    pub set: Option<Timestamp>,
}

/// When the value was inserted.
pub struct InsertResponse {
    pub inserted: Option<Timestamp>,
}

/// Whether the key was found.
pub struct ExistsResponse {
    pub found: bool,
}

/// Whether a key was removed, and when.
pub struct DelResponse {
    pub status: Option<del_response::Status>,
}

/// Whether a bucket was truncated, and when.
pub struct TruncateResponse {
    pub status: Option<truncate_response::Status>,
}

/// Whether a bucket was dropped, and when.
pub struct DropResponse {
    pub status: Option<drop_response::Status>,
}

impl View for GetResponse {
    type V = (Option<Seq<u8>>, Option<Timestamp>);

    open spec fn view(&self) -> (Option<Seq<u8>>, Option<Timestamp>) {
        (opt_val_view(self.val), self.got)
    }
}

impl View for SetResponse {
    type V = Option<Timestamp>;

    open spec fn view(&self) -> Option<Timestamp> {
        self.set
    }
}

impl View for InsertResponse {
    type V = Option<Timestamp>;

    open spec fn view(&self) -> Option<Timestamp> {
        self.inserted
    }
}

impl View for ExistsResponse {
    type V = bool;

    open spec fn view(&self) -> bool {
        self.found
    }
}

impl View for DelResponse {
    type V = Option<del_response::Status>;

    open spec fn view(&self) -> Option<del_response::Status> {
        self.status
    }
}

impl View for TruncateResponse {
    type V = Option<truncate_response::Status>;

    open spec fn view(&self) -> Option<truncate_response::Status> {
        self.status
    }
}

impl View for DropResponse {
    type V = Option<drop_response::Status>;

    open spec fn view(&self) -> Option<drop_response::Status> {
        self.status
    }
}

} // verus!
