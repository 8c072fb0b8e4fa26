use rkv::bucket::bkt::Bucket;
use rkv::bucket::checker::NoChecker;
use rkv::bucket::prefix::{
    bucket_as_prefix_new_concat, bucket_as_prefix_new_join, bucket_as_prefix_new_join_default,
    BucketAsPrefix,
};
use rkv::rpc::Key;

fn bkt(s: &str) -> Bucket {
    Bucket::new(s.to_string(), &NoChecker).ok().unwrap()
}

#[test]
fn concat_puts_bucket_before_key() {
    let p = bucket_as_prefix_new_concat();
    let k = p.key_with_bucket(&bkt("ab"), &Key { k: b"cd".to_vec() }).ok().unwrap();
    assert_eq!(k.k, b"abcd".to_vec());
}

#[test]
fn join_puts_separator_between() {
    let p = bucket_as_prefix_new_join(b':');
    let k = p.key_with_bucket(&bkt("ab"), &Key { k: b"cd".to_vec() }).ok().unwrap();
    assert_eq!(k.k, b"ab:cd".to_vec());
    let p = bucket_as_prefix_new_join_default();
    let k = p.key_with_bucket(&bkt("é"), &Key { k: vec![] }).ok().unwrap();
    assert_eq!(k.k, vec![0xc3, 0xa9, b'/']);
}

#[test]
fn join_keeps_buckets_apart_where_concat_does_not() {
    let c = bucket_as_prefix_new_concat();
    let a = c.key_with_bucket(&bkt("ab"), &Key { k: b"c".to_vec() }).ok().unwrap();
    let b = c.key_with_bucket(&bkt("a"), &Key { k: b"bc".to_vec() }).ok().unwrap();
    assert_eq!(a.k, b.k);
    let j = bucket_as_prefix_new_join_default();
    let a = j.key_with_bucket(&bkt("ab"), &Key { k: b"c".to_vec() }).ok().unwrap();
    let b = j.key_with_bucket(&bkt("a"), &Key { k: b"bc".to_vec() }).ok().unwrap();
    assert_ne!(a.k, b.k);
}

#[test]
fn bucket_default_and_bytes() {
    let d = Bucket::default();
    assert_eq!(d.as_str(), "");
    let b = bkt("x y");
    assert_eq!(b.as_bytes(), b"x y");
    assert!(b.same_as(&bkt("x y")));
    assert!(!b.same_as(&d));
    let w: rkv::rpc::Bucket = b.clone().into();
    assert_eq!(w.b, "x y");
}
