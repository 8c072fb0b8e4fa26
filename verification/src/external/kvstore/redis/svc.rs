//! The decisions of a service whose keys live in a redis server: what to answer, given what
//! the server said.

use vstd::prelude::*;

use crate::internal::btree::{key_used, key_used_status};
use crate::rpc::{del_response, DelResponse, GetResponse, Timestamp, Val};
use crate::status::Status;

verus! {

#[verifier::external_type_specification]
#[verifier::external_body]
pub struct ExRedisClient(redis::Client);

/// The text of the error that `redis::Client::open` gives on the connection string `conn`
/// (its `Display`), or `None` when it accepts the string.
pub uninterp spec fn redis_open_error(conn: Seq<char>) -> Option<Seq<char>>;

/// `redis::Client::open`: checks the connection string (it opens no connection) and gives a
/// client, or an error, shown as text. Which strings it accepts and the error's text are
/// redis's own and depend on the string alone; they are named, not spelled out.
#[verifier::external_body]
fn redis_client_open(conn_str: &str) -> (r: Result<redis::Client, String>)
    ensures
        match r {
            Ok(_) => redis_open_error(conn_str@) is None,
            Err(t) => redis_open_error(conn_str@) == Some(t@),
        },
{
    match redis::Client::open(conn_str) {
        Ok(c) => Ok(c),
        Err(e) => Err(e.to_string()),
    }
}

/// A client for the redis server that `conn_str` names, or why the string is refused.
pub fn open_client(conn_str: &str) -> (r: Result<redis::Client, String>)
    ensures
        match r {
            Ok(_) => redis_open_error(conn_str@) is None,
            Err(t) => exists|d: Seq<char>|
                redis_open_error(conn_str@) == Some(d) && t@ == "Unable to open: "@ + d,
        },
{
    match redis_client_open(conn_str) {
        Ok(c) => Ok(c),
        Err(d) => {
            let mut t = String::new();
            t.append("Unable to open: ");
            t.append(d.as_str());
            assert(t@ == "Unable to open: "@ + d@);
            Err(t)
        },
    }
}

/// The answer to a read whose value the server gave as `val`.
pub fn get_reply(val: Vec<u8>, now: Timestamp) -> (r: GetResponse)
    ensures
        r@ == (Some(val@), Some(now)),
{
    GetResponse { val: Some(Val { v: val }), got: Some(now) }
}

/// The answer to a removal of which the server said that it removed `cnt` keys.
pub fn del_reply(cnt: u64, now: Timestamp) -> (r: DelResponse)
    ensures
        r@ == if cnt == 0 {
            Some(del_response::Status::Absent(()))
        } else {
            Some(del_response::Status::Removed(now))
        },
{
    if cnt == 0 {
        DelResponse { status: Some(del_response::Status::Absent(())) }
    } else {
        DelResponse { status: Some(del_response::Status::Removed(now)) }
    }
}

/// Whether an insert may go on to set its key, given whether the server said that the key
/// exists: a key in use is refused.
pub fn insert_check(found: bool) -> (r: Result<(), Status>)
    ensures
        match r {
            Ok(()) => !found,
            Err(e) => found && e@ == key_used_status(),
        },
{
    if found {
        Err(key_used())
    } else {
        Ok(())
    }
}

} // verus!
