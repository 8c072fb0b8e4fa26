//! The refusals of a store shared behind a read/write lock.

use vstd::prelude::*;

use crate::status::{Code, Status, StatusView};

verus! {

/// The refusal of a request whose store could not be locked: `prefix`, then what the lock
/// said.
pub open spec fn lock_refusal(prefix: Seq<char>, detail: Seq<char>) -> StatusView {
    StatusView { code: Code::Internal, message: prefix + detail }
}

/// The refusal of a read whose store could not be locked for reading.
pub fn read_lock_refused(detail: &str) -> (s: Status)
    ensures
        s@ == lock_refusal("UNABLE TO READ LOCK: "@, detail@),
{
    let mut m = String::new();
    m.append("UNABLE TO READ LOCK: ");
    m.append(detail);
    Status::internal(m)
}

/// The refusal of a write whose store could not be locked for writing.
pub fn write_lock_refused(detail: &str) -> (s: Status)
    ensures
        s@ == lock_refusal("UNABLE TO WRITE LOCK: "@, detail@),
{
    let mut m = String::new();
    m.append("UNABLE TO WRITE LOCK: ");
    m.append(detail);
    Status::internal(m)
}

} // verus!
