//! The outcome of a refused request: a gRPC status code and a message.

use vstd::prelude::*;

verus! {

/// The gRPC status codes.
#[derive(Clone, Copy, Debug, PartialEq, Eq, Structural)]
pub enum Code {
    Success,
    Cancelled,
    Unknown,
    InvalidArgument,
    DeadlineExceeded,
    NotFound,
    AlreadyExists,
    PermissionDenied,
    ResourceExhausted,
    FailedPrecondition,
    Aborted,
    OutOfRange,
    Unimplemented,
    Internal,
    Unavailable,
    DataLoss,
    Unauthenticated,
}

impl Code {
    /// The number that the gRPC protocol gives the code.
    pub open spec fn grpc_number(self) -> i32 {
        match self {
            Code::Success => 0,
            Code::Cancelled => 1,
            Code::Unknown => 2,
            Code::InvalidArgument => 3,
            Code::DeadlineExceeded => 4,
            Code::NotFound => 5,
            Code::AlreadyExists => 6,
            Code::PermissionDenied => 7,
            Code::ResourceExhausted => 8,
            Code::FailedPrecondition => 9,
            Code::Aborted => 10,
            Code::OutOfRange => 11,
            Code::Unimplemented => 12,
            Code::Internal => 13,
            Code::Unavailable => 14,
            Code::DataLoss => 15,
            Code::Unauthenticated => 16,
        }
    }

    /// The number that the gRPC protocol gives the code.
    pub fn number(&self) -> (n: i32)
        ensures
            n == self.grpc_number(),
    {
        match self {
            Code::Success => 0,
            Code::Cancelled => 1,
            Code::Unknown => 2,
            Code::InvalidArgument => 3,
            Code::DeadlineExceeded => 4,
            Code::NotFound => 5,
            Code::AlreadyExists => 6,
            Code::PermissionDenied => 7,
            Code::ResourceExhausted => 8,
            Code::FailedPrecondition => 9,
            Code::Aborted => 10,
            Code::OutOfRange => 11,
            Code::Unimplemented => 12,
            Code::Internal => 13,
            Code::Unavailable => 14,
            Code::DataLoss => 15,
            Code::Unauthenticated => 16,
        }
    }
}

/// What a status is: its code and its message.
pub struct StatusView {
    pub code: Code,
    pub message: Seq<char>,
}

/// A refusal: a status code with a message.
#[derive(Debug)]
pub struct Status {
    code: Code,
    message: String,
}

impl View for Status {
    type V = StatusView;

    closed spec fn view(&self) -> StatusView {
        StatusView { code: self.code, message: self.message@ }
    }
}

/// The text that tonic's `Display` gives a status with this code number and message.
pub uninterp spec fn status_text(code: i32, message: Seq<char>) -> Seq<char>;

/// The text of a status, as a gRPC status displays it.
pub open spec fn rendered(s: StatusView) -> Seq<char> {
    status_text(s.code.grpc_number(), s.message)
}

/// Renders a status through `tonic::Status`'s `Display` (built by `tonic::Status::new`
/// from the code's number and the message). The text is named, not spelled out: it is
/// tonic's own rendering and depends on nothing but the code and the message.
#[verifier::external_body]
fn tonic_status_text(code: i32, message: &str) -> (t: String)
    ensures
        t@ == status_text(code, message@),
{
    tonic::Status::new(tonic::Code::from_i32(code), message).to_string()
}

impl Status {
    /// A status with the given code and message.
    pub fn new(code: Code, message: String) -> (s: Self)
        ensures
            s@ == (StatusView { code, message: message@ }),
    {
        Status { code, message }
    }

    /// The client gave an invalid argument.
    pub fn invalid_argument(message: String) -> (s: Self)
        ensures
            s@ == (StatusView { code: Code::InvalidArgument, message: message@ }),
    {
        Status { code: Code::InvalidArgument, message }
    }

    /// Something that the request asked for was not found.
    pub fn not_found(message: String) -> (s: Self)
        ensures
            s@ == (StatusView { code: Code::NotFound, message: message@ }),
    {
        Status { code: Code::NotFound, message }
    }

    /// The request cannot be carried out in the present state.
    pub fn failed_precondition(message: String) -> (s: Self)
        ensures
            s@ == (StatusView { code: Code::FailedPrecondition, message: message@ }),
    {
        Status { code: Code::FailedPrecondition, message }
    }

    /// An invariant of the service was broken.
    pub fn internal(message: String) -> (s: Self)
        ensures
            s@ == (StatusView { code: Code::Internal, message: message@ }),
    {
        Status { code: Code::Internal, message }
    }

    /// The status code.
    pub fn code(&self) -> (c: Code)
        ensures
            c == self@.code,
    {
        self.code
    }

    /// The message.
    pub fn message(&self) -> (m: &str)
        ensures
            m@ == self@.message,
    {
        self.message.as_str()
    }

    /// The status as text, as a gRPC status displays it.
    pub fn to_string(&self) -> (t: String)
        ensures
            t@ == rendered(self@),
    {
        tonic_status_text(self.code.number(), self.message.as_str())
    }
}

impl Clone for Status {
    fn clone(&self) -> (s: Self)
        ensures
            s@ == self@,
    {
        Status { code: self.code, message: self.message.clone() }
    }
}

} // verus!
