use rkv::bucket::checker::{nop_checker, uuid_checker_new_simple};
use rkv::bucket::prefix::bucket_as_prefix_new_join_default;
use rkv::bucket::svc::bucket_as_prefix_svc_new;
use rkv::bucket::bkt::Bucket as CheckedBucket;
use rkv::external::kvstore::redis::svc::{del_reply, get_reply, insert_check, open_client};
use rkv::internal::bucket::btree::BTree;
use rkv::internal::bytemap::ByteMap;
use rkv::internal::kvcore::KeyValue;
use rkv::rpc::{
    del_response, Bucket, DelRequest, ExistsRequest, GetRequest, InsertRequest, Key, SetRequest,
    Timestamp, TruncateRequest, Uuid, Val,
};
use rkv::status::Code;

fn id() -> Option<Uuid> {
    Some(Uuid { hi: 9, lo: 8 })
}

fn wire(b: &str) -> Option<Bucket> {
    Some(Bucket { b: b.into() })
}

#[test]
fn virtual_bucket_folds_bucket_into_key() {
    let s = bucket_as_prefix_svc_new(bucket_as_prefix_new_join_default(), (), nop_checker());
    let g = GetRequest { request_id: id(), bucket: wire("b1"), key: Some(Key { k: b"k".to_vec() }) };
    let f = s.forward_get(g).ok().unwrap();
    assert_eq!(f.request_id, id());
    assert_eq!(f.bucket.unwrap().b, "");
    assert_eq!(f.key.unwrap().k, b"b1/k".to_vec());
    let w = SetRequest {
        request_id: id(),
        bucket: wire("b2"),
        key: Some(Key { k: b"x".to_vec() }),
        val: Some(Val { v: b"v".to_vec() }),
    };
    let f = s.forward_set(w).ok().unwrap();
    assert_eq!(f.key.unwrap().k, b"b2/x".to_vec());
    assert_eq!(f.val.unwrap().v, b"v".to_vec());
    let i = InsertRequest {
        request_id: id(),
        bucket: wire("b3"),
        key: Some(Key { k: b"y".to_vec() }),
        val: Some(Val { v: b"w".to_vec() }),
    };
    assert_eq!(s.forward_insert(i).ok().unwrap().key.unwrap().k, b"b3/y".to_vec());
    let d = DelRequest { request_id: id(), bucket: wire("b4"), key: Some(Key { k: b"z".to_vec() }) };
    assert_eq!(s.forward_del(d).ok().unwrap().key.unwrap().k, b"b4/z".to_vec());
    let e = ExistsRequest { request_id: id(), bucket: wire("b5"), key: Some(Key { k: vec![] }) };
    assert_eq!(s.forward_exist(e).ok().unwrap().key.unwrap().k, b"b5/".to_vec());
    let t = TruncateRequest { request_id: id(), bucket: wire("b6") };
    let f = s.forward_truncate(t).ok().unwrap();
    assert_eq!(f.bucket.unwrap().b, "");
    assert_eq!(f.request_id, id());
}

#[test]
fn virtual_bucket_refuses_unchecked_bucket() {
    let s = bucket_as_prefix_svc_new(bucket_as_prefix_new_join_default(), (), uuid_checker_new_simple("u".into()));
    let g = GetRequest { request_id: id(), bucket: wire("nope"), key: Some(Key { k: b"k".to_vec() }) };
    let e = s.forward_get(g).err().unwrap();
    assert_eq!(e.code(), Code::InvalidArgument);
    assert!(e.message().starts_with("invalid bucket(request id=00000000000000090000000000000008): "));
    let g = GetRequest { request_id: id(), bucket: wire("ab"), key: Some(Key { k: b"k".to_vec() }) };
    assert_eq!(s.forward_get(g).ok().unwrap().key.unwrap().k, b"uab/k".to_vec());
}

#[test]
fn redis_replies_follow_the_server() {
    let t = Timestamp { seconds: 3, nanos: 4 };
    assert!(matches!(del_reply(0, t).status, Some(del_response::Status::Absent(()))));
    assert!(matches!(del_reply(2, t).status, Some(del_response::Status::Removed(x)) if x == t));
    assert!(insert_check(false).is_ok());
    let e = insert_check(true).unwrap_err();
    assert_eq!(e.code(), Code::FailedPrecondition);
    assert_eq!(e.message(), "the key already used");
    let g = get_reply(vec![1, 2], t);
    assert_eq!(g.val.unwrap().v, vec![1, 2]);
    assert_eq!(g.got, Some(t));
}

#[test]
fn redis_client_open_checks_the_string() {
    assert!(open_client("redis://127.0.0.1/").is_ok());
    let e = open_client("not a redis url").err().unwrap();
    assert!(e.starts_with("Unable to open: "));
    assert!(e.len() > "Unable to open: ".len());
}

#[test]
fn default_stores_are_empty() {
    let m = ByteMap::default();
    assert!(m.is_empty());
    let b: BTree<ByteMap> = BTree::default();
    assert!(!b.exist(&CheckedBucket::default()));
}
