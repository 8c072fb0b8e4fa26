use rkv::bucket::bkt::Bucket;
use rkv::bucket::checker::NoChecker;
use rkv::internal::bucket::btree::{kv_btree_btree_new, kv_btree_new};
use rkv::internal::bytemap::ByteMap;
use rkv::internal::kv::KeyValue as Served;
use rkv::internal::kvcore::{kv_new, KeyValue};
use rkv::rpc::{
    del_response, drop_response, truncate_response, DelRequest, DropRequest, ExistsRequest,
    GetRequest, InsertRequest, Key, SetRequest, Timestamp, TruncateRequest, Uuid, Val,
};
use rkv::status::Code;

const T: Timestamp = Timestamp { seconds: 1, nanos: 0 };

fn bkt(s: &str) -> Bucket {
    Bucket::new(s.to_string(), &NoChecker).ok().unwrap()
}

fn key(s: &[u8]) -> Key {
    Key { k: s.to_vec() }
}

fn val(s: &[u8]) -> Val {
    Val { v: s.to_vec() }
}

fn wire(s: &str) -> Option<rkv::rpc::Bucket> {
    Some(rkv::rpc::Bucket { b: s.into() })
}

fn id() -> Option<Uuid> {
    Some(Uuid { hi: 0, lo: 3 })
}

#[test]
fn flat_map_ignores_buckets() {
    let mut m = ByteMap::empty();
    assert!(KeyValue::set(&mut m, bkt("a"), key(b"k"), val(b"v")).is_none());
    assert_eq!(KeyValue::get(&m, &bkt("b"), &key(b"k")).unwrap().v, b"v".to_vec());
    assert!(m.exist(&bkt("never")));
    m.truncate(&bkt("z"));
    assert!(!m.exists_key(&bkt("a"), &key(b"k")));
}

#[test]
fn bucketed_store_keeps_buckets_apart() {
    let mut s = kv_btree_btree_new();
    assert!(!s.exist(&bkt("a")));
    s.set(bkt("a"), key(b"k"), val(b"1"));
    s.set(bkt("b"), key(b"k"), val(b"2"));
    assert!(s.exist(&bkt("a")));
    assert_eq!(s.get(&bkt("a"), &key(b"k")).unwrap().v, b"1".to_vec());
    assert_eq!(s.get(&bkt("b"), &key(b"k")).unwrap().v, b"2".to_vec());
    assert_eq!(s.del(&bkt("a"), &key(b"k")).unwrap().v, b"1".to_vec());
    assert!(s.get(&bkt("a"), &key(b"k")).is_none());
    assert!(s.exist(&bkt("a")));
    assert!(s.exists_key(&bkt("b"), &key(b"k")));
    s.truncate(&bkt("b"));
    assert!(!s.exists_key(&bkt("b"), &key(b"k")));
    assert!(s.exist(&bkt("b")));
}

#[test]
fn ins_refuses_and_restores() {
    let mut s = kv_btree_new::<ByteMap>();
    assert!(s.ins(bkt("a"), key(b"k"), val(b"1")).is_ok());
    let e = s.ins(bkt("a"), key(b"k"), val(b"2")).unwrap_err();
    assert_eq!(e, "the key already used");
    assert_eq!(s.get(&bkt("a"), &key(b"k")).unwrap().v, b"1".to_vec());
    assert!(s.ins(bkt("b"), key(b"k"), val(b"3")).is_ok());
}

#[test]
fn served_store_answers_requests() {
    let mut s = kv_new(kv_btree_btree_new());
    let set = SetRequest { request_id: id(), bucket: wire("a"), key: Some(key(b"k")), val: Some(val(b"v")) };
    assert_eq!(Served::set(&mut s, set, T).ok().unwrap().set, Some(T));
    let get = |b: &str| GetRequest { request_id: id(), bucket: wire(b), key: Some(key(b"k")) };
    assert_eq!(Served::get(&s, get("a"), T).ok().unwrap().val.unwrap().v, b"v".to_vec());
    let e = Served::get(&s, get("b"), T).err().unwrap();
    assert_eq!(e.code(), Code::NotFound);
    assert_eq!(e.message(), "No val found for key: [\n    107,\n]");
    let q = ExistsRequest { request_id: id(), bucket: wire("a"), key: Some(key(b"k")) };
    assert!(Served::exist(&s, q).ok().unwrap().found);
    let ins = InsertRequest { request_id: id(), bucket: wire("a"), key: Some(key(b"k")), val: Some(val(b"w")) };
    let e = Served::insert(&mut s, ins, T).err().unwrap();
    assert_eq!(e.code(), Code::FailedPrecondition);
    assert_eq!(Served::get(&s, get("a"), T).ok().unwrap().val.unwrap().v, b"v".to_vec());
    let del = || DelRequest { request_id: id(), bucket: wire("a"), key: Some(key(b"k")) };
    assert!(matches!(Served::del(&mut s, del(), T).ok().unwrap().status, Some(del_response::Status::Removed(_))));
    assert!(matches!(Served::del(&mut s, del(), T).ok().unwrap().status, Some(del_response::Status::Absent(()))));
}

#[test]
fn served_truncate_and_drop_report_the_bucket() {
    let mut s = kv_new(kv_btree_btree_new());
    let tr = |b: &str| TruncateRequest { request_id: id(), bucket: wire(b) };
    assert!(matches!(Served::truncate(&mut s, tr("a"), T).ok().unwrap().status, Some(truncate_response::Status::Absent(()))));
    let set = SetRequest { request_id: id(), bucket: wire("a"), key: Some(key(b"k")), val: Some(val(b"v")) };
    Served::set(&mut s, set, T).ok().unwrap();
    assert!(matches!(Served::truncate(&mut s, tr("a"), T).ok().unwrap().status, Some(truncate_response::Status::Truncated(_))));
    assert!(s.inner().get(&bkt("a"), &key(b"k")).is_none());
    let dr = DropRequest { request_id: id(), bucket: wire("a") };
    assert!(matches!(Served::drop(&mut s, dr, T).ok().unwrap().status, Some(drop_response::Status::Dropped(_))));
    let bad = SetRequest { request_id: None, bucket: wire("a"), key: Some(key(b"k")), val: Some(val(b"v")) };
    assert_eq!(Served::set(&mut s, bad, T).err().unwrap().message(), "request id missing");
}
