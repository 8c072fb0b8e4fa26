//! The outcome carried by a `del` reply.

use vstd::prelude::*;

use crate::rpc::Timestamp;

verus! {

/// Nothing was there to remove, or it was removed at the given time.
#[derive(Clone, Copy, Debug)]
pub enum Status {
    Absent(()),
    Removed(Timestamp),
}

} // verus!
