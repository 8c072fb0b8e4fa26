use rkv::rpc;
use rkv::uuid::Uuid;

#[test]
fn uuid_split_undoes_new() {
    let u = Uuid::new(0x0123_4567_89ab_cdef, 0xfedc_ba98_7654_3210);
    assert_eq!(u.split(), (0x0123_4567_89ab_cdef, 0xfedc_ba98_7654_3210));
    let u = Uuid::new(u64::MAX, 0);
    assert_eq!(u.split(), (u64::MAX, 0));
}

#[test]
fn uuid_text_is_32_hex_digits() {
    assert_eq!(Uuid::new(0, 1).to_string(), "00000000000000000000000000000001");
    assert_eq!(
        Uuid::new(0xcafef00ddeadbeaf, 0xface864299792458).to_string(),
        "cafef00ddeadbeafface864299792458"
    );
    assert_eq!(Uuid::new(u64::MAX, u64::MAX).to_string(), "f".repeat(32));
}

#[test]
fn uuid_text_is_accepted_as_uuid() {
    let u = Uuid::new(7, 9);
    let r = rkv::bucket::checker::uuid_check_simple(u.to_string());
    assert_eq!(r.unwrap(), "00000000000000070000000000000009");
}

#[test]
fn uuid_wire_round_trip() {
    let g = rpc::Uuid { hi: 42, lo: 43 };
    let u: Uuid = Uuid::from(&g);
    let back: rpc::Uuid = u.into();
    assert_eq!(back, g);
    assert_eq!(u.split(), (42, 43));
}

#[test]
fn uuid_text_is_high_half_then_low_half() {
    assert_eq!(Uuid::new(0x20230830, 0x103513).to_string(), "00000000202308300000000000103513");
    let (hi, lo) = (0xdead_beef_u64, 0x1234_u64);
    assert_eq!(Uuid::new(hi, lo).to_string(), format!("{:016x}{:016x}", hi, lo));
}
