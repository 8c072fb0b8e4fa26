use rkv::bucket::checker::{uuid_checker_new_simple, NoChecker};
use rkv::cmd::del::DelReq;
use rkv::cmd::drop::DropReq;
use rkv::cmd::exist::ExistsReq;
use rkv::cmd::get::GetReq;
use rkv::cmd::insert::InsertReq;
use rkv::cmd::set::SetReq;
use rkv::cmd::truncate::TruncateReq;
use rkv::rpc::{
    Bucket, DelRequest, DropRequest, ExistsRequest, GetRequest, InsertRequest, Key, SetRequest,
    TruncateRequest, Uuid, Val,
};
use rkv::status::Code;

const ID: &str = "00000000000000000000000000000001";

fn id() -> Option<Uuid> {
    Some(Uuid { hi: 0, lo: 1 })
}

fn bucket(b: &str) -> Option<Bucket> {
    Some(Bucket { b: b.to_string() })
}

fn key(k: &[u8]) -> Option<Key> {
    Some(Key { k: k.to_vec() })
}

#[test]
fn request_without_id_is_refused() {
    let g = DelRequest { request_id: None, bucket: bucket("b"), key: key(b"k") };
    let e = DelReq::new(g, &NoChecker).err().unwrap();
    assert_eq!(e.code(), Code::InvalidArgument);
    assert_eq!(e.message(), "request id missing");
}

#[test]
fn request_without_bucket_is_refused() {
    let g = GetRequest { request_id: id(), bucket: None, key: key(b"k") };
    let e = GetReq::new(g, &NoChecker).err().unwrap();
    assert_eq!(e.code(), Code::InvalidArgument);
    assert_eq!(
        e.message(),
        format!(
            "invalid bucket(request id={ID}): code: 'Client specified an invalid argument', \
             message: \"bucket missing. request id: {ID}\""
        )
    );
}

#[test]
fn request_without_key_or_val_is_refused() {
    let g = ExistsRequest { request_id: id(), bucket: bucket("b"), key: None };
    let e = ExistsReq::new(g, &NoChecker).err().unwrap();
    assert_eq!(e.message(), format!("key missing. request id: {ID}"));
    let g = SetRequest { request_id: id(), bucket: bucket("b"), key: key(b"k"), val: None };
    let e = SetReq::new(g, &NoChecker).err().unwrap();
    assert_eq!(e.message(), format!("val missing. request id: {ID}"));
}

#[test]
fn refused_bucket_names_the_refusal() {
    let checker = uuid_checker_new_simple("p".into());
    let g = TruncateRequest { request_id: id(), bucket: bucket("zz") };
    let e = TruncateReq::new(g, &checker).err().unwrap();
    assert_eq!(e.code(), Code::InvalidArgument);
    assert_eq!(
        e.message(),
        format!(
            "invalid bucket(request id={ID}): code: 'Client specified an invalid argument', \
             message: \"Invalid uuid: invalid digit found in string\""
        )
    );
}

#[test]
fn checked_request_keeps_its_fields() {
    let checker = uuid_checker_new_simple("p-".into());
    let g = InsertRequest {
        request_id: Some(Uuid { hi: 5, lo: 6 }),
        bucket: bucket("abc"),
        key: key(b"k1"),
        val: Some(Val { v: b"v1".to_vec() }),
    };
    let c = InsertReq::new(g, &checker).ok().unwrap();
    assert_eq!(c.as_request().split(), (5, 6));
    assert_eq!(c.as_bucket().as_str(), "p-abc");
    assert_eq!(c.as_key_bytes(), b"k1");
    let (b, k, v) = c.into_unpacked();
    assert_eq!(b.as_bytes(), b"p-abc");
    assert_eq!(k.k, b"k1".to_vec());
    assert_eq!(v.v, b"v1".to_vec());
}

#[test]
fn unchecked_conversions_take_buckets_as_they_are() {
    let g = DelRequest { request_id: id(), bucket: bucket("any"), key: key(b"k") };
    let c: DelReq = g.try_into().ok().unwrap();
    assert_eq!(c.as_bucket().as_str(), "any");
    assert_eq!(c.as_key().k, b"k".to_vec());
    let (b, k) = c.into_unpacked();
    assert_eq!((b.as_str(), k.k), ("any", b"k".to_vec()));
    let g = DropRequest { request_id: id(), bucket: bucket("d") };
    let c = DropReq::try_from(g).ok().unwrap();
    assert_eq!(c.as_bucket().as_str(), "d");
    assert_eq!(c.as_request().to_string(), ID);
    let g = SetRequest {
        request_id: id(),
        bucket: bucket("s"),
        key: key(b"a"),
        val: Some(Val { v: vec![1] }),
    };
    let c = SetReq::try_from(g).ok().unwrap();
    assert_eq!(c.as_key_bytes(), b"a");
    let (k, v) = c.into_kv();
    assert_eq!((k.k, v.v), (b"a".to_vec(), vec![1]));
    let g = DelRequest { request_id: id(), bucket: bucket("x"), key: key(b"q") };
    assert_eq!(DelReq::try_from(g).ok().unwrap().into_key().k, b"q".to_vec());
}
