use rkv::bucket::checker::{nop_checker, uuid_checker_new_simple};
use rkv::internal::btree::kvstore_btree_new;
use rkv::internal::kv::KeyValue;
use rkv::rpc::{
    del_response, drop_response, truncate_response, Bucket, DelRequest, DropRequest,
    ExistsRequest, GetRequest, InsertRequest, Key, SetRequest, Timestamp, TruncateRequest, Uuid,
    Val,
};
use rkv::status::Code;

const T: Timestamp = Timestamp { seconds: 10, nanos: 5 };

fn id() -> Option<Uuid> {
    Some(Uuid { hi: 1, lo: 2 })
}

fn b() -> Option<Bucket> {
    Some(Bucket { b: "bkt".into() })
}

fn k(x: &[u8]) -> Option<Key> {
    Some(Key { k: x.to_vec() })
}

fn get(x: &[u8]) -> GetRequest {
    GetRequest { request_id: id(), bucket: b(), key: k(x) }
}

fn set(x: &[u8], v: &[u8]) -> SetRequest {
    SetRequest { request_id: id(), bucket: b(), key: k(x), val: Some(Val { v: v.to_vec() }) }
}

#[test]
fn flat_read_after_write() {
    let mut s = kvstore_btree_new(nop_checker());
    let r = s.set(set(b"k", b"v1"), T).ok().unwrap();
    assert_eq!(r.set, Some(T));
    let g = s.get(get(b"k"), T).ok().unwrap();
    assert_eq!(g.val.unwrap().v, b"v1".to_vec());
    assert_eq!(g.got, Some(T));
    s.set(set(b"k", b"v2"), T).ok().unwrap();
    assert_eq!(s.get(get(b"k"), T).ok().unwrap().val.unwrap().v, b"v2".to_vec());
    s.set(set(b"other", b"o"), T).ok().unwrap();
    assert_eq!(s.get(get(b"k"), T).ok().unwrap().val.unwrap().v, b"v2".to_vec());
}

#[test]
fn flat_missing_key_is_not_found() {
    let s = kvstore_btree_new(nop_checker());
    let e = s.get(get(&[1, 20]), T).err().unwrap();
    assert_eq!(e.code(), Code::NotFound);
    assert_eq!(e.message(), "No val found for key: [\n    1,\n    20,\n]");
    let e = s.get(get(&[]), T).err().unwrap();
    assert_eq!(e.message(), "No val found for key: []");
}

#[test]
fn flat_exists_follows_writes() {
    let mut s = kvstore_btree_new(nop_checker());
    let q = || ExistsRequest { request_id: id(), bucket: b(), key: k(b"k") };
    assert!(!s.exist(q()).ok().unwrap().found);
    s.set(set(b"k", b"v"), T).ok().unwrap();
    assert!(s.exist(q()).ok().unwrap().found);
}

#[test]
fn flat_delete_reports_presence() {
    let mut s = kvstore_btree_new(nop_checker());
    s.set(set(b"k", b"v"), T).ok().unwrap();
    let d = || DelRequest { request_id: id(), bucket: b(), key: k(b"k") };
    let r = s.del(d(), T).ok().unwrap();
    assert!(matches!(r.status, Some(del_response::Status::Removed(t)) if t == T));
    let r = s.del(d(), T).ok().unwrap();
    assert!(matches!(r.status, Some(del_response::Status::Absent(()))));
    assert!(s.get(get(b"k"), T).is_err());
}

#[test]
fn flat_truncate_and_drop_empty_the_store() {
    let mut s = kvstore_btree_new(nop_checker());
    s.set(set(b"a", b"1"), T).ok().unwrap();
    s.set(set(b"b", b"2"), T).ok().unwrap();
    let t = || TruncateRequest { request_id: id(), bucket: b() };
    let r = s.truncate(t(), T).ok().unwrap();
    assert!(matches!(r.status, Some(truncate_response::Status::Truncated(x)) if x == T));
    assert!(s.get(get(b"a"), T).is_err());
    let r = s.truncate(t(), T).ok().unwrap();
    assert!(matches!(r.status, Some(truncate_response::Status::Absent(()))));
    s.set(set(b"c", b"3"), T).ok().unwrap();
    let d = || DropRequest { request_id: id(), bucket: b() };
    let r = s.drop(d(), T).ok().unwrap();
    assert!(matches!(r.status, Some(drop_response::Status::Dropped(x)) if x == T));
    let r = s.drop(d(), T).ok().unwrap();
    assert!(matches!(r.status, Some(drop_response::Status::Absent(()))));
}

#[test]
fn flat_insert_refuses_bound_key_and_keeps_value() {
    let mut s = kvstore_btree_new(nop_checker());
    let ins = |v: &[u8]| InsertRequest {
        request_id: id(),
        bucket: b(),
        key: k(b"k"),
        val: Some(Val { v: v.to_vec() }),
    };
    let r = s.insert(ins(b"first"), T).ok().unwrap();
    assert_eq!(r.inserted, Some(T));
    let e = s.insert(ins(b"second"), T).err().unwrap();
    assert_eq!(e.code(), Code::FailedPrecondition);
    assert_eq!(e.message(), "the key already used");
    assert_eq!(s.get(get(b"k"), T).ok().unwrap().val.unwrap().v, b"first".to_vec());
}

#[test]
fn flat_refused_request_changes_nothing() {
    let mut s = kvstore_btree_new(uuid_checker_new_simple(String::new()));
    let e = s.set(set(b"k", b"v"), T).err().unwrap();
    assert_eq!(e.code(), Code::InvalidArgument);
    let bad = GetRequest { request_id: None, bucket: b(), key: k(b"k") };
    assert_eq!(s.get(bad, T).err().unwrap().message(), "request id missing");
    let good = SetRequest {
        request_id: id(),
        bucket: Some(Bucket { b: "ab".into() }),
        key: k(b"k"),
        val: Some(Val { v: b"v".to_vec() }),
    };
    s.set(good, T).ok().unwrap();
    let q = GetRequest { request_id: id(), bucket: Some(Bucket { b: "cd".into() }), key: k(b"k") };
    assert_eq!(s.get(q, T).ok().unwrap().val.unwrap().v, b"v".to_vec());
}
