//! Checked bucket names.

use vstd::prelude::*;

use crate::bucket::checker::Checker;
use crate::rpc;
use crate::status::{Status, StatusView};

verus! {

/// A bucket name that a checker accepted.
pub struct Bucket {
    checked: String,
}

impl View for Bucket {
    type V = Seq<char>;

    closed spec fn view(&self) -> Seq<char> {
        self.checked@
    }
}

/// What creating a bucket gave back, by value.
pub open spec fn bucket_result_view(r: Result<Bucket, Status>) -> Result<Seq<char>, StatusView> {
    match r {
        Ok(b) => Ok(b@),
        Err(e) => Err(e@),
    }
}

impl Bucket {
    /// The bucket that `checker` makes of `unchecked`, or why it refused it.
    pub fn new<C>(unchecked: String, checker: &C) -> (r: Result<Self, Status>)
        where
            C: Checker,
        ensures
            checker.checks(unchecked@, bucket_result_view(r)),
    {
        match checker.check(unchecked) {
            Ok(checked) => Ok(Self { checked }),
            Err(e) => Err(e),
        }
    }

    /// The name.
    pub fn as_str(&self) -> (s: &str)
        ensures
            s@ == self@,
    {
        self.checked.as_str()
    }

    /// Whether the two buckets have the same name.
    pub fn same_as(&self, other: &Bucket) -> (r: bool)
        ensures
            r == (self@ == other@),
    {
        self.checked == other.checked
    }

    /// The name as UTF-8 bytes.
    pub fn as_bytes(&self) -> (b: &[u8])
        ensures
            b@ == vstd::utf8::encode_utf8(self@),
    {
        self.as_str().as_bytes()
    }
}

impl Default for Bucket {
    fn default() -> (b: Self)
        ensures
            b@ == Seq::<char>::empty(),
    {
        Bucket { checked: String::new() }
    }
}

impl Clone for Bucket {
    fn clone(&self) -> (b: Self)
        ensures
            b@ == self@,
    {
        Bucket { checked: self.checked.clone() }
    }
}

impl From<Bucket> for rpc::Bucket {
    fn from(d: Bucket) -> (b: Self)
        ensures
            b@ == d@,
    {
        rpc::Bucket { b: d.checked }
    }
}

impl vstd::std_specs::convert::FromSpecImpl<Bucket> for rpc::Bucket {
    open spec fn obeys_from_spec() -> bool {
        true
    }

    closed spec fn from_spec(d: Bucket) -> Self {
        rpc::Bucket { b: d.checked }
    }
}

} // verus!
