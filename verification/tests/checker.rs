use rkv::bucket::checker::{
    checker_new, nop_checker, uuid_check_simple, uuid_checker_new, uuid_checker_new_simple,
    Checker, NoChecker,
};
use rkv::status::{Code, Status};

#[test]
fn test_empty() {
    let r: Result<_, _> = uuid_check_simple("".into());
    assert!(r.is_err());
}

#[test]
fn test_invalid() {
    let r: Result<_, _> = uuid_check_simple("zz".into());
    assert!(r.is_err());
}

#[test]
fn test_long() {
    let r: Result<_, _> = uuid_check_simple("cafef00d-dead-beaf-face-864299792458".into());
    assert!(r.is_err());
}

#[test]
fn test_short() {
    let i: &str = "cafef00ddeadbeafface864299792458";
    let r: Result<_, _> = uuid_check_simple(i.into());
    assert!(r.is_ok());
    let s: String = r.unwrap();
    assert_eq!(s.as_str(), i);
}

#[test]
fn uuid_check_error_carries_std_text() {
    let e = uuid_check_simple("zz".into()).unwrap_err();
    assert_eq!(e.code(), Code::InvalidArgument);
    assert_eq!(e.message(), "Invalid uuid: invalid digit found in string");
    let e = uuid_check_simple("".into()).unwrap_err();
    assert_eq!(e.message(), "Invalid uuid: cannot parse integer from empty string");
}

#[test]
fn uuid_check_accepts_sign_case_and_leading_zeros() {
    assert!(uuid_check_simple("+ff".into()).is_ok());
    assert!(uuid_check_simple("CAFE".into()).is_ok());
    assert!(uuid_check_simple("-1".into()).is_err());
    assert!(uuid_check_simple("+".into()).is_err());
    let zeros_then_max = format!("0{}", "f".repeat(32));
    assert!(uuid_check_simple(zeros_then_max).is_ok());
}

#[test]
fn uuid_check_rejects_overflow() {
    let e = uuid_check_simple("1".repeat(33)).unwrap_err();
    assert_eq!(e.message(), "Invalid uuid: number too large to fit in target type");
}

#[test]
fn nop_checker_accepts_as_is() {
    let c = nop_checker();
    assert_eq!(c.check("any name".into()).unwrap(), "any name");
    assert_eq!(c.check("".into()).unwrap(), "");
}

#[test]
fn no_checker_accepts_as_is() {
    let c = NoChecker::default();
    assert_eq!(c.check("b".into()).unwrap(), "b");
}

#[test]
fn uuid_checker_simple_prefixes_accepted_names() {
    let c = uuid_checker_new_simple("tenant-".into());
    assert_eq!(
        c.check("cafef00ddeadbeafface864299792458".into()).unwrap(),
        "tenant-cafef00ddeadbeafface864299792458"
    );
    let e = c.check("not-a-uuid".into()).unwrap_err();
    assert_eq!(e.code(), Code::InvalidArgument);
    assert!(e.message().starts_with("Invalid uuid: "));
}

#[test]
fn checker_new_calls_the_function() {
    let c = checker_new(|s: String| {
        if s == "bad" {
            Err(Status::invalid_argument("refused".to_string()))
        } else {
            Ok(s)
        }
    });
    assert_eq!(c.check("good".into()).unwrap(), "good");
    assert_eq!(c.check("bad".into()).unwrap_err().message(), "refused");
}

#[test]
fn uuid_checker_new_prefixes_what_the_function_gives() {
    let c = uuid_checker_new(|s: String| Ok(s.to_uppercase()), "x".into());
    assert_eq!(c.check("ab".into()).unwrap(), "xAB");
    let c = uuid_checker_new(|_s: String| Err(Status::not_found("no".to_string())), "x".into());
    let e = c.check("ab".into()).unwrap_err();
    assert_eq!(e.code(), Code::NotFound);
    assert_eq!(e.message(), "no");
}
