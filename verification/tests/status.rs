use rkv::status::{Code, Status};

#[test]
fn status_text_is_tonic_rendering() {
    let s = Status::invalid_argument("bad \"x\"".to_string());
    assert_eq!(
        s.to_string(),
        "code: 'Client specified an invalid argument', message: \"bad \\\"x\\\"\""
    );
    let s = Status::new(Code::Internal, String::new());
    assert_eq!(s.to_string(), "code: 'Internal error'");
}

#[test]
fn status_constructors_set_code_and_message() {
    assert_eq!(Status::not_found("a".into()).code(), Code::NotFound);
    assert_eq!(Status::failed_precondition("b".into()).code(), Code::FailedPrecondition);
    assert_eq!(Status::internal("c".into()).code(), Code::Internal);
    assert_eq!(Status::internal("c".into()).message(), "c");
    assert_eq!(Code::Success.number(), 0);
    assert_eq!(Code::Unauthenticated.number(), 16);
    assert_eq!(Code::FailedPrecondition.number(), 9);
}
