//! The outcome carried by a `drop` reply.

use vstd::prelude::*;

use crate::rpc::Timestamp;

verus! {

/// Nothing was there to remove, or it was removed at the given time.
#[derive(Clone, Copy, Debug)]
pub enum Status {
    Absent(()),
    Dropped(Timestamp),
}

} // verus!
