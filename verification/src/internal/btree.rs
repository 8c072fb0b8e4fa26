//! A store of one flat map from keys to values, whose requests are checked with a checker.

use vstd::prelude::*;

use crate::bucket::checker::Checker;
use crate::cmd::del::DelReq;
use crate::cmd::drop::DropReq;
use crate::cmd::exist::ExistsReq;
use crate::cmd::get::GetReq;
use crate::cmd::insert::InsertReq;
use crate::cmd::set::SetReq;
use crate::cmd::truncate::TruncateReq;
use crate::cmd::{
    bucket_cmd_outcome, checked_by, cmd_result, key_cmd_outcome, write_cmd_outcome,
    BucketCmdView, KeyCmdView, WriteCmdView,
};
use crate::internal::bytemap::ByteMap;
use crate::internal::kv::KeyValue;
use crate::rpc::{
    del_response, drop_response, truncate_response, DelRequest, DelResponse, DropRequest,
    DropResponse, ExistsRequest, ExistsResponse, GetRequest, GetResponse, InsertRequest,
    InsertResponse, SetRequest, SetResponse, Timestamp, TruncateRequest, TruncateResponse, Val,
};
use crate::status::{Code, Status, StatusView};
use crate::text::{debug_bytes, push_debug_bytes};

verus! {

/// The contents of a flat store.
pub type FlatMap = Map<Seq<u8>, Seq<u8>>;

/// The refusal of a read of a key that is not bound.
pub open spec fn not_found_status(key: Seq<u8>) -> StatusView {
    StatusView { code: Code::NotFound, message: "No val found for key: "@ + debug_bytes(key) }
}

/// The refusal of an insert of a key that is bound.
pub open spec fn key_used_status() -> StatusView {
    StatusView { code: Code::FailedPrecondition, message: "the key already used"@ }
}

/// The answer to a read: the value and the time, or why there is none.
pub open spec fn flat_get(m: FlatMap, c: Result<KeyCmdView, StatusView>, now: Timestamp) -> Result<
    (Option<Seq<u8>>, Option<Timestamp>),
    StatusView,
> {
    match c {
        Err(e) => Err(e),
        Ok(c) => if m.contains_key(c.key) {
            Ok((Some(m[c.key]), Some(now)))
        } else {
            Err(not_found_status(c.key))
        },
    }
}

/// The answer to a question whether a key is bound.
pub open spec fn flat_exists(m: FlatMap, c: Result<KeyCmdView, StatusView>) -> Result<
    bool,
    StatusView,
> {
    match c {
        Err(e) => Err(e),
        Ok(c) => Ok(m.contains_key(c.key)),
    }
}

/// The contents after a write, and its answer.
pub open spec fn flat_set(m: FlatMap, c: Result<WriteCmdView, StatusView>, now: Timestamp) -> (
    FlatMap,
    Result<Option<Timestamp>, StatusView>,
) {
    match c {
        Err(e) => (m, Err(e)),
        Ok(c) => (m.insert(c.key, c.val), Ok(Some(now))),
    }
}

/// The contents after an insert, and its answer: a bound key is refused and left as it was.
pub open spec fn flat_insert(m: FlatMap, c: Result<WriteCmdView, StatusView>, now: Timestamp) -> (
    FlatMap,
    Result<Option<Timestamp>, StatusView>,
) {
    match c {
        Err(e) => (m, Err(e)),
        Ok(c) => if m.contains_key(c.key) {
            (m, Err(key_used_status()))
        } else {
            (m.insert(c.key, c.val), Ok(Some(now)))
        },
    }
}

/// The contents after a removal, and its answer.
pub open spec fn flat_del(m: FlatMap, c: Result<KeyCmdView, StatusView>, now: Timestamp) -> (
    FlatMap,
    Result<Option<del_response::Status>, StatusView>,
) {
    match c {
        Err(e) => (m, Err(e)),
        Ok(c) => if m.contains_key(c.key) {
            (m.remove(c.key), Ok(Some(del_response::Status::Removed(now))))
        } else {
            (m, Ok(Some(del_response::Status::Absent(()))))
        },
    }
}

/// The contents after a truncation, and whether there was anything to remove.
pub open spec fn flat_clear(m: FlatMap, c: Result<BucketCmdView, StatusView>) -> (
    FlatMap,
    Result<bool, StatusView>,
) {
    match c {
        Err(e) => (m, Err(e)),
        Ok(_) => (Map::empty(), Ok(m != Map::<Seq<u8>, Seq<u8>>::empty())),
    }
}

/// The answer to a truncation, given whether there was anything to remove.
pub open spec fn truncate_reply(removed: bool, now: Timestamp) -> Option<truncate_response::Status> {
    if removed {
        Some(truncate_response::Status::Truncated(now))
    } else {
        Some(truncate_response::Status::Absent(()))
    }
}

/// The answer to a drop, given whether there was anything to remove.
pub open spec fn drop_reply(removed: bool, now: Timestamp) -> Option<drop_response::Status> {
    if removed {
        Some(drop_response::Status::Dropped(now))
    } else {
        Some(drop_response::Status::Absent(()))
    }
}

/// A store of one flat map from keys to values, whose requests are checked with `checker`.
/// Buckets are checked but do not partition the keys.
pub struct BTree<C> {
    checker: C,
    m: ByteMap,
}

impl<C> View for BTree<C> {
    type V = FlatMap;

    closed spec fn view(&self) -> FlatMap {
        self.m@
    }
}

impl<C> BTree<C> {
    /// The checker of the store's requests.
    pub closed spec fn checker(&self) -> C {
        self.checker
    }
}

/// The refusal of a read of `key`.
fn not_found(key: &[u8]) -> (s: Status)
    ensures
        s@ == not_found_status(key@),
{
    let mut m = String::new();
    m.append("No val found for key: ");
    push_debug_bytes(&mut m, key);
    Status::not_found(m)
}

/// The refusal of an insert of a bound key.
pub(crate) fn key_used() -> (s: Status)
    ensures
        s@ == key_used_status(),
{
    let mut m = String::new();
    m.append("the key already used");
    Status::failed_precondition(m)
}

impl<C> BTree<C> {
    /// Answers a read whose request was validated into `checked`.
    pub fn get_checked(&self, checked: Result<GetReq, Status>, now: Timestamp) -> (r: Result<
        GetResponse,
        Status,
    >)
        ensures
            cmd_result(r) == flat_get(self@, cmd_result(checked), now),
    {
        let checked = match checked {
            Ok(c) => c,
            Err(e) => return Err(e),
        };
        let key_bytes: &[u8] = checked.as_key_bytes();
        match self.m.get(key_bytes) {
            Some(val) => {
                let v = Val { v: val.clone() };
                assert(v@ == val@);
                Ok(GetResponse { val: Some(v), got: Some(now) })
            },
            None => Err(not_found(key_bytes)),
        }
    }

    /// Answers a question, validated into `checked`, whether a key is bound.
    pub fn exist_checked(&self, checked: Result<ExistsReq, Status>) -> (r: Result<
        ExistsResponse,
        Status,
    >)
        ensures
            cmd_result(r) == flat_exists(self@, cmd_result(checked)),
    {
        let checked = match checked {
            Ok(c) => c,
            Err(e) => return Err(e),
        };
        let found: bool = self.m.contains_key(checked.as_key_bytes());
        Ok(ExistsResponse { found })
    }

    /// Carries out a write validated into `checked`.
    pub fn set_checked(&mut self, checked: Result<SetReq, Status>, now: Timestamp) -> (r: Result<
        SetResponse,
        Status,
    >)
        ensures
            (final(self)@, cmd_result(r)) == flat_set(old(self)@, cmd_result(checked), now),
            final(self).checker() == old(self).checker(),
    {
        let checked = match checked {
            Ok(c) => c,
            Err(e) => return Err(e),
        };
        let (key, val) = checked.into_kv();
        self.m.insert(key.k, val.v);
        Ok(SetResponse { set: Some(now) })
    }

    /// Carries out a removal validated into `checked`.
    pub fn del_checked(&mut self, checked: Result<DelReq, Status>, now: Timestamp) -> (r: Result<
        DelResponse,
        Status,
    >)
        ensures
            (final(self)@, cmd_result(r)) == flat_del(old(self)@, cmd_result(checked), now),
            final(self).checker() == old(self).checker(),
    {
        let checked = match checked {
            Ok(c) => c,
            Err(e) => return Err(e),
        };
        let key = checked.into_key();
        let k: Vec<u8> = key.k;
        let reply = match self.m.remove(k.as_slice()) {
            None => DelResponse { status: Some(del_response::Status::Absent(())) },
            Some(_) => DelResponse { status: Some(del_response::Status::Removed(now)) },
        };
        Ok(reply)
    }

    /// Empties the map; tells whether there was anything to remove.
    fn clear_all(&mut self) -> (removed: bool)
        ensures
            final(self)@ == Map::<Seq<u8>, Seq<u8>>::empty(),
            removed == (old(self)@ != Map::<Seq<u8>, Seq<u8>>::empty()),
            final(self).checker() == old(self).checker(),
    {
        let empty: bool = self.m.is_empty();
        self.m.clear();
        !empty
    }

    /// Carries out a truncation validated into `checked`.
    pub fn truncate_checked(
        &mut self,
        checked: Result<TruncateReq, Status>,
        now: Timestamp,
    ) -> (r: Result<TruncateResponse, Status>)
        ensures
            ({
                let (m, removed) = flat_clear(old(self)@, cmd_result(checked));
                &&& final(self)@ == m
                &&& cmd_result(r) == match removed {
                    Ok(x) => Ok(truncate_reply(x, now)),
                    Err(e) => Err(e),
                }
            }),
            final(self).checker() == old(self).checker(),
    {
        if let Err(e) = checked {
            return Err(e);
        }
        let removed = self.clear_all();
        let reply = if removed {
            TruncateResponse { status: Some(truncate_response::Status::Truncated(now)) }
        } else {
            TruncateResponse { status: Some(truncate_response::Status::Absent(())) }
        };
        Ok(reply)
    }

    /// Carries out a drop validated into `checked`.
    pub fn drop_checked(&mut self, checked: Result<DropReq, Status>, now: Timestamp) -> (r: Result<
        DropResponse,
        Status,
    >)
        ensures
            ({
                let (m, removed) = flat_clear(old(self)@, cmd_result(checked));
                &&& final(self)@ == m
                &&& cmd_result(r) == match removed {
                    Ok(x) => Ok(drop_reply(x, now)),
                    Err(e) => Err(e),
                }
            }),
            final(self).checker() == old(self).checker(),
    {
        if let Err(e) = checked {
            return Err(e);
        }
        let removed = self.clear_all();
        let reply = if removed {
            DropResponse { status: Some(drop_response::Status::Dropped(now)) }
        } else {
            DropResponse { status: Some(drop_response::Status::Absent(())) }
        };
        Ok(reply)
    }

    /// Carries out an insert validated into `checked`: a bound key is refused and left as it
    /// was.
    pub fn insert_checked(&mut self, checked: Result<InsertReq, Status>, now: Timestamp) -> (r:
        Result<InsertResponse, Status>)
        ensures
            (final(self)@, cmd_result(r)) == flat_insert(old(self)@, cmd_result(checked), now),
            final(self).checker() == old(self).checker(),
    {
        let checked = match checked {
            Ok(c) => c,
            Err(e) => return Err(e),
        };
        let (key, val) = checked.into_kv();
        let k: Vec<u8> = key.k;
        let v: Vec<u8> = val.v;
        let kc = k.clone();
        assert(kc@ == k@);
        match self.m.insert(kc, v) {
            None => Ok(InsertResponse { inserted: Some(now) }),
            Some(overwritten) => {
                self.m.insert(k, overwritten);
                proof {
                    assert(self@ =~= old(self)@);
                }
                Err(key_used())
            },
        }
    }
}

impl<C: Checker> KeyValue for BTree<C> {
    fn get(&self, req: GetRequest, now: Timestamp) -> (r: Result<GetResponse, Status>)
        ensures
            exists|checked: Result<Seq<char>, StatusView>|
                checked_by(&self.checker(), req.request_id, req.bucket, checked) && cmd_result(r)
                    == flat_get(self@, key_cmd_outcome(req.request_id, req.bucket, req.key, checked), now),
    {
        let ghost g = req;
        let checked = GetReq::new(req, &self.checker);
        let ghost ch = choose|ch: Result<Seq<char>, StatusView>|
            checked_by(&self.checker, g.request_id, g.bucket, ch) && cmd_result(checked)
                == key_cmd_outcome(g.request_id, g.bucket, g.key, ch);
        let r = self.get_checked(checked, now);
        assert(checked_by(&self.checker(), g.request_id, g.bucket, ch) && cmd_result(r)
            == flat_get(self@, key_cmd_outcome(g.request_id, g.bucket, g.key, ch), now));
        r
    }

    fn exist(&self, req: ExistsRequest) -> (r: Result<ExistsResponse, Status>)
        ensures
            exists|checked: Result<Seq<char>, StatusView>|
                checked_by(&self.checker(), req.request_id, req.bucket, checked) && cmd_result(r)
                    == flat_exists(self@, key_cmd_outcome(req.request_id, req.bucket, req.key, checked)),
    {
        let ghost g = req;
        let checked = ExistsReq::new(req, &self.checker);
        let ghost ch = choose|ch: Result<Seq<char>, StatusView>|
            checked_by(&self.checker, g.request_id, g.bucket, ch) && cmd_result(checked)
                == key_cmd_outcome(g.request_id, g.bucket, g.key, ch);
        let r = self.exist_checked(checked);
        assert(checked_by(&self.checker(), g.request_id, g.bucket, ch) && cmd_result(r)
            == flat_exists(self@, key_cmd_outcome(g.request_id, g.bucket, g.key, ch)));
        r
    }

    fn set(&mut self, req: SetRequest, now: Timestamp) -> (r: Result<SetResponse, Status>)
        ensures
            exists|checked: Result<Seq<char>, StatusView>|
                checked_by(&old(self).checker(), req.request_id, req.bucket, checked) && (
                final(self)@,
                cmd_result(r),
            ) == flat_set(
                old(self)@,
                write_cmd_outcome(req.request_id, req.bucket, req.key, req.val, checked),
                now,
            ),
            final(self).checker() == old(self).checker(),
    {
        let ghost g = req;
        let checked = SetReq::new(req, &self.checker);
        let ghost ch = choose|ch: Result<Seq<char>, StatusView>|
            checked_by(&self.checker, g.request_id, g.bucket, ch) && cmd_result(checked)
                == write_cmd_outcome(g.request_id, g.bucket, g.key, g.val, ch);
        let r = self.set_checked(checked, now);
        assert(checked_by(&old(self).checker(), g.request_id, g.bucket, ch) && (self@, cmd_result(r))
            == flat_set(old(self)@, write_cmd_outcome(g.request_id, g.bucket, g.key, g.val, ch), now));
        r
    }

    fn del(&mut self, req: DelRequest, now: Timestamp) -> (r: Result<DelResponse, Status>)
        ensures
            exists|checked: Result<Seq<char>, StatusView>|
                checked_by(&old(self).checker(), req.request_id, req.bucket, checked) && (
                final(self)@,
                cmd_result(r),
            ) == flat_del(
                old(self)@,
                key_cmd_outcome(req.request_id, req.bucket, req.key, checked),
                now,
            ),
            final(self).checker() == old(self).checker(),
    {
        let ghost g = req;
        let checked = DelReq::new(req, &self.checker);
        let ghost ch = choose|ch: Result<Seq<char>, StatusView>|
            checked_by(&self.checker, g.request_id, g.bucket, ch) && cmd_result(checked)
                == key_cmd_outcome(g.request_id, g.bucket, g.key, ch);
        let r = self.del_checked(checked, now);
        assert(checked_by(&old(self).checker(), g.request_id, g.bucket, ch) && (self@, cmd_result(r))
            == flat_del(old(self)@, key_cmd_outcome(g.request_id, g.bucket, g.key, ch), now));
        r
    }

    fn truncate(&mut self, req: TruncateRequest, now: Timestamp) -> (r: Result<
        TruncateResponse,
        Status,
    >)
        ensures
            exists|checked: Result<Seq<char>, StatusView>|
                checked_by(&old(self).checker(), req.request_id, req.bucket, checked) && ({
                    let (m, removed) = flat_clear(
                        old(self)@,
                        bucket_cmd_outcome(req.request_id, req.bucket, checked),
                    );
                    &&& final(self)@ == m
                    &&& cmd_result(r) == match removed {
                        Ok(x) => Ok(truncate_reply(x, now)),
                        Err(e) => Err(e),
                    }
                }),
            final(self).checker() == old(self).checker(),
    {
        let ghost g = req;
        let checked = TruncateReq::new(req, &self.checker);
        let ghost ch = choose|ch: Result<Seq<char>, StatusView>|
            checked_by(&self.checker, g.request_id, g.bucket, ch) && cmd_result(checked)
                == bucket_cmd_outcome(g.request_id, g.bucket, ch);
        let r = self.truncate_checked(checked, now);
        assert(checked_by(&old(self).checker(), g.request_id, g.bucket, ch) && ({
            let (m, removed) = flat_clear(old(self)@, bucket_cmd_outcome(g.request_id, g.bucket, ch));
            &&& self@ == m
            &&& cmd_result(r) == match removed {
                Ok(x) => Ok(truncate_reply(x, now)),
                Err(e) => Err(e),
            }
        }));
        r
    }

    fn drop(&mut self, req: DropRequest, now: Timestamp) -> (r: Result<DropResponse, Status>)
        ensures
            exists|checked: Result<Seq<char>, StatusView>|
                checked_by(&old(self).checker(), req.request_id, req.bucket, checked) && ({
                    let (m, removed) = flat_clear(
                        old(self)@,
                        bucket_cmd_outcome(req.request_id, req.bucket, checked),
                    );
                    &&& final(self)@ == m
                    &&& cmd_result(r) == match removed {
                        Ok(x) => Ok(drop_reply(x, now)),
                        Err(e) => Err(e),
                    }
                }),
            final(self).checker() == old(self).checker(),
    {
        let ghost g = req;
        let checked = DropReq::new(req, &self.checker);
        let ghost ch = choose|ch: Result<Seq<char>, StatusView>|
            checked_by(&self.checker, g.request_id, g.bucket, ch) && cmd_result(checked)
                == bucket_cmd_outcome(g.request_id, g.bucket, ch);
        let r = self.drop_checked(checked, now);
        assert(checked_by(&old(self).checker(), g.request_id, g.bucket, ch) && ({
            let (m, removed) = flat_clear(old(self)@, bucket_cmd_outcome(g.request_id, g.bucket, ch));
            &&& self@ == m
            &&& cmd_result(r) == match removed {
                Ok(x) => Ok(drop_reply(x, now)),
                Err(e) => Err(e),
            }
        }));
        r
    }

    fn insert(&mut self, req: InsertRequest, now: Timestamp) -> (r: Result<InsertResponse, Status>)
        ensures
            exists|checked: Result<Seq<char>, StatusView>|
                checked_by(&old(self).checker(), req.request_id, req.bucket, checked) && (
                final(self)@,
                cmd_result(r),
            ) == flat_insert(
                old(self)@,
                write_cmd_outcome(req.request_id, req.bucket, req.key, req.val, checked),
                now,
            ),
            final(self).checker() == old(self).checker(),
    {
        let ghost g = req;
        let checked = InsertReq::new(req, &self.checker);
        let ghost ch = choose|ch: Result<Seq<char>, StatusView>|
            checked_by(&self.checker, g.request_id, g.bucket, ch) && cmd_result(checked)
                == write_cmd_outcome(g.request_id, g.bucket, g.key, g.val, ch);
        let r = self.insert_checked(checked, now);
        assert(checked_by(&old(self).checker(), g.request_id, g.bucket, ch) && (self@, cmd_result(r))
            == flat_insert(old(self)@, write_cmd_outcome(g.request_id, g.bucket, g.key, g.val, ch), now));
        r
    }
}

/// A read of a key after a write of it gives the written value.
pub proof fn lemma_get_after_set(m: FlatMap, w: WriteCmdView, c: KeyCmdView, t1: Timestamp, t2: Timestamp)
    requires
        c.key == w.key,
    ensures
        flat_get(flat_set(m, Ok(w), t1).0, Ok(c), t2) == Ok::<
            (Option<Seq<u8>>, Option<Timestamp>),
            StatusView,
        >((Some(w.val), Some(t2))),
{
}

/// A write of a key leaves the answers about every other key as they were.
pub proof fn lemma_set_keeps_other_keys(
    m: FlatMap,
    w: WriteCmdView,
    c: KeyCmdView,
    t1: Timestamp,
    t2: Timestamp,
)
    requires
        c.key != w.key,
    ensures
        flat_get(flat_set(m, Ok(w), t1).0, Ok(c), t2) == flat_get(m, Ok(c), t2),
        flat_exists(flat_set(m, Ok(w), t1).0, Ok(c)) == flat_exists(m, Ok(c)),
{
}

/// An insert of a bound key is refused and leaves the store as it was; an insert of an
/// unbound key is a write.
pub proof fn lemma_insert_is_set_or_refused(m: FlatMap, w: WriteCmdView, t: Timestamp)
    ensures
        m.contains_key(w.key) ==> flat_insert(m, Ok(w), t) == (m, Err::<
            Option<Timestamp>,
            StatusView,
        >(key_used_status())),
        !m.contains_key(w.key) ==> flat_insert(m, Ok(w), t) == flat_set(m, Ok(w), t),
{
}

/// After a removal of a key, a read of it is refused as not found, and a second removal
/// finds nothing.
pub proof fn lemma_get_after_del(m: FlatMap, d: KeyCmdView, c: KeyCmdView, t1: Timestamp, t2: Timestamp)
    requires
        c.key == d.key,
    ensures
        flat_get(flat_del(m, Ok(d), t1).0, Ok(c), t2) == Err::<
            (Option<Seq<u8>>, Option<Timestamp>),
            StatusView,
        >(not_found_status(c.key)),
        flat_del(flat_del(m, Ok(d), t1).0, Ok(c), t2).1 == Ok::<
            Option<del_response::Status>,
            StatusView,
        >(Some(del_response::Status::Absent(()))),
{
}

/// A removal reports that it removed something exactly when the key was bound.
pub proof fn lemma_del_reports_presence(m: FlatMap, d: KeyCmdView, t: Timestamp)
    ensures
        (flat_del(m, Ok(d), t).1 == Ok::<Option<del_response::Status>, StatusView>(
            Some(del_response::Status::Removed(t)),
        )) == m.contains_key(d.key),
{
}

/// After a truncation every key is unbound.
pub proof fn lemma_clear_unbinds_all(m: FlatMap, b: BucketCmdView, c: KeyCmdView, t: Timestamp)
    ensures
        flat_get(flat_clear(m, Ok(b)).0, Ok(c), t) == Err::<
            (Option<Seq<u8>>, Option<Timestamp>),
            StatusView,
        >(not_found_status(c.key)),
        flat_exists(flat_clear(m, Ok(b)).0, Ok(c)) == Ok::<bool, StatusView>(false),
{
}

/// A key is said to exist exactly when a read of it succeeds.
pub proof fn lemma_exists_iff_get(m: FlatMap, c: KeyCmdView, t: Timestamp)
    ensures
        (flat_exists(m, Ok(c)) == Ok::<bool, StatusView>(true)) == flat_get(m, Ok(c), t) is Ok,
{
}

/// A refused request leaves the store as it was and answers with its refusal.
pub proof fn lemma_refused_changes_nothing(m: FlatMap, e: StatusView, t: Timestamp)
    ensures
        flat_set(m, Err(e), t) == (m, Err::<Option<Timestamp>, StatusView>(e)),
        flat_insert(m, Err(e), t) == (m, Err::<Option<Timestamp>, StatusView>(e)),
        flat_del(m, Err(e), t) == (m, Err::<Option<del_response::Status>, StatusView>(e)),
        flat_clear(m, Err(e)) == (m, Err::<bool, StatusView>(e)),
{
}

/// A removal of a key unbinds that key and leaves every other key as it was: reads and
/// questions about another key answer as before the removal.
pub proof fn lemma_del_keeps_other_keys(
    m: FlatMap,
    d: KeyCmdView,
    c: KeyCmdView,
    t1: Timestamp,
    t2: Timestamp,
)
    requires
        c.key != d.key,
    ensures
        !flat_del(m, Ok(d), t1).0.contains_key(d.key),
        flat_del(m, Ok(d), t1).0.get(c.key) == m.get(c.key),
        flat_get(flat_del(m, Ok(d), t1).0, Ok(c), t2) == flat_get(m, Ok(c), t2),
        flat_exists(flat_del(m, Ok(d), t1).0, Ok(c)) == flat_exists(m, Ok(c)),
{
}

/// An insert touches at most its own key: every other key is left as it was, and its own
/// key ends bound, to the new value when it was unbound and to the old one otherwise.
pub proof fn lemma_insert_keeps_other_keys(m: FlatMap, w: WriteCmdView, t: Timestamp, k2: Seq<u8>)
    requires
        k2 != w.key,
    ensures
        flat_insert(m, Ok(w), t).0.get(k2) == m.get(k2),
        flat_insert(m, Ok(w), t).0.get(w.key) == if m.contains_key(w.key) {
            m.get(w.key)
        } else {
            Some(w.val)
        },
{
}

/// A read that succeeds carries the key's value; a read of an unbound key is refused as not
/// found.
pub proof fn lemma_get_answers_value(m: FlatMap, c: KeyCmdView, t: Timestamp)
    ensures
        flat_get(m, Ok(c), t) is Ok ==> flat_get(m, Ok(c), t)->Ok_0.0 == m.get(c.key)
            && m.get(c.key) is Some,
        !m.contains_key(c.key) ==> flat_get(m, Ok(c), t) == Err::<
            (Option<Seq<u8>>, Option<Timestamp>),
            StatusView,
        >(not_found_status(c.key)),
{
}

/// A question about an unbound key is answered no; after a removal of a key, or a
/// truncation, a question about it is answered no; after a write of it, yes.
pub proof fn lemma_exists_answers_key(
    m: FlatMap,
    c: KeyCmdView,
    w: WriteCmdView,
    b: BucketCmdView,
    t: Timestamp,
)
    requires
        w.key == c.key,
    ensures
        !m.contains_key(c.key) ==> flat_exists(m, Ok(c)) == Ok::<bool, StatusView>(false),
        flat_exists(flat_del(m, Ok(c), t).0, Ok(c)) == Ok::<bool, StatusView>(false),
        flat_exists(flat_clear(m, Ok(b)).0, Ok(c)) == Ok::<bool, StatusView>(false),
        flat_exists(flat_set(m, Ok(w), t).0, Ok(c)) == Ok::<bool, StatusView>(true),
{
}

/// A truncation answers that it removed something exactly when some key was bound.
pub proof fn lemma_clear_reports_contents(m: FlatMap, b: BucketCmdView, k: Seq<u8>)
    ensures
        m.contains_key(k) ==> flat_clear(m, Ok(b)).1 == Ok::<bool, StatusView>(true),
        m == Map::<Seq<u8>, Seq<u8>>::empty() ==> flat_clear(m, Ok(b)).1 == Ok::<bool, StatusView>(
            false,
        ),
{
    if m.contains_key(k) {
        assert(!Map::<Seq<u8>, Seq<u8>>::empty().contains_key(k));
    }
}

/// A store of one flat map, empty, whose requests are checked with `checker`.
pub fn kvstore_btree_new<C>(checker: C) -> (s: BTree<C>)
    where
        C: Checker,
    ensures
        s@ == Map::<Seq<u8>, Seq<u8>>::empty(),
        s.checker() == checker,
{
    BTree { checker, m: ByteMap::new() }
}

} // verus!
