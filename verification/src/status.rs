//! Statuses with structured error details (after google.rpc's
//! `error_details.proto`): the gRPC status codes and the HTTP statuses they
//! map to, the details a status carries, and the JSON-shaped answer of the
//! HTTP API.
use std::collections::HashMap;
use std::time::Duration;
pub mod prompt;

use vstd::prelude::*;

verus! {

/// A gRPC status code (the codes of `tonic::Code`, with their numbers).
#[derive(Clone, Copy, Debug, PartialEq, Eq, Structural)]
pub enum Code {
    /// `Ok` (0): not an error.
    Success,
    Cancelled,
    Unknown,
    InvalidArgument,
    DeadlineExceeded,
    NotFound,
    AlreadyExists,
    PermissionDenied,
    ResourceExhausted,
    FailedPrecondition,
    Aborted,
    OutOfRange,
    Unimplemented,
    Internal,
    Unavailable,
    DataLoss,
    Unauthenticated,
}

/// The number of a status code.
pub open spec fn code_number(c: Code) -> i32 {
    match c {
        Code::Success => 0,
        Code::Cancelled => 1,
        Code::Unknown => 2,
        Code::InvalidArgument => 3,
        Code::DeadlineExceeded => 4,
        Code::NotFound => 5,
        Code::AlreadyExists => 6,
        Code::PermissionDenied => 7,
        Code::ResourceExhausted => 8,
        Code::FailedPrecondition => 9,
        Code::Aborted => 10,
        Code::OutOfRange => 11,
        Code::Unimplemented => 12,
        Code::Internal => 13,
        Code::Unavailable => 14,
        Code::DataLoss => 15,
        Code::Unauthenticated => 16,
    }
}

/// The HTTP status a gRPC status code is answered with.
pub open spec fn http_code_of(c: Code) -> u16 {
    match c {
        Code::Success => 200,
        Code::Cancelled => 499,
        Code::Unknown => 500,
        Code::InvalidArgument => 400,
        Code::DeadlineExceeded => 504,
        Code::NotFound => 404,
        Code::AlreadyExists => 409,
        Code::PermissionDenied => 403,
        Code::ResourceExhausted => 429,
        Code::FailedPrecondition => 400,
        Code::Aborted => 409,
        Code::OutOfRange => 400,
        Code::Unimplemented => 501,
        Code::Internal => 500,
        Code::Unavailable => 503,
        Code::DataLoss => 500,
        Code::Unauthenticated => 401,
    }
}

impl Code {
    /// The number of the code.
    pub fn to_i32(&self) -> (r: i32)
        ensures
            r == code_number(*self),
    {
        match self {
            Code::Success => 0,
            Code::Cancelled => 1,
            Code::Unknown => 2,
            Code::InvalidArgument => 3,
            Code::DeadlineExceeded => 4,
            Code::NotFound => 5,
            Code::AlreadyExists => 6,
            Code::PermissionDenied => 7,
            Code::ResourceExhausted => 8,
            Code::FailedPrecondition => 9,
            Code::Aborted => 10,
            Code::OutOfRange => 11,
            Code::Unimplemented => 12,
            Code::Internal => 13,
            Code::Unavailable => 14,
            Code::DataLoss => 15,
            Code::Unauthenticated => 16,
        }
    }

    /// The code of a number; a number no code has is `Unknown`.
    pub fn from_i32(i: i32) -> (r: Code)
        ensures
            0 <= i <= 16 ==> code_number(r) == i,
            !(0 <= i <= 16) ==> r == Code::Unknown,
    {
        match i {
            0 => Code::Success,
            1 => Code::Cancelled,
            2 => Code::Unknown,
            3 => Code::InvalidArgument,
            4 => Code::DeadlineExceeded,
            5 => Code::NotFound,
            6 => Code::AlreadyExists,
            7 => Code::PermissionDenied,
            8 => Code::ResourceExhausted,
            9 => Code::FailedPrecondition,
            10 => Code::Aborted,
            11 => Code::OutOfRange,
            12 => Code::Unimplemented,
            13 => Code::Internal,
            14 => Code::Unavailable,
            15 => Code::DataLoss,
            16 => Code::Unauthenticated,
            _ => Code::Unknown,
        }
    }
}

/// Reading back the number of a code gives the code.
pub proof fn lemma_code_number_round_trip(c: Code)
    ensures
        0 <= code_number(c) <= 16,
        forall|d: Code| code_number(d) == code_number(c) ==> d == c,
{
}

/// Maps gRPC status codes to HTTP statuses.
pub trait CodeExt {
    fn to_http_code(&self) -> u16;
}

impl CodeExt for Code {
    /// The HTTP status the code is answered with.
    fn to_http_code(&self) -> (r: u16)
        ensures
            r == http_code_of(*self),
    {
        match self {
            Code::Success => 200,
            Code::Cancelled => 499,
            Code::Unknown => 500,
            Code::InvalidArgument => 400,
            Code::DeadlineExceeded => 504,
            Code::NotFound => 404,
            Code::AlreadyExists => 409,
            Code::PermissionDenied => 403,
            Code::ResourceExhausted => 429,
            Code::FailedPrecondition => 400,
            Code::Aborted => 409,
            Code::OutOfRange => 400,
            Code::Unimplemented => 501,
            Code::Internal => 500,
            Code::Unavailable => 503,
            Code::DataLoss => 500,
            Code::Unauthenticated => 401,
        }
    }
}

/// Every code maps to an HTTP status of the kind it names: success to 200,
/// the others to a client (4xx) or server (5xx) error.
pub proof fn lemma_http_code_classes(c: Code)
    ensures
        c == Code::Success <==> http_code_of(c) == 200,
        c != Code::Success ==> 400 <= http_code_of(c) < 600,
{
}

/// Failures on the server's side are answered with server errors (5xx):
/// an unknown, internal or data-loss failure with the generic 500, an
/// unimplemented method with 501, an unavailable service with 503 and a
/// passed deadline with 504. Faults of the request are answered with client
/// errors (4xx), and only success with 200.
pub proof fn lemma_http_code_blame(c: Code)
    ensures
        (c == Code::Unknown || c == Code::Internal || c == Code::DataLoss) <==> http_code_of(c)
            == 500,
        c == Code::Unimplemented <==> http_code_of(c) == 501,
        c == Code::Unavailable <==> http_code_of(c) == 503,
        c == Code::DeadlineExceeded <==> http_code_of(c) == 504,
        (c == Code::Unknown || c == Code::Internal || c == Code::DataLoss || c == Code::Unimplemented
            || c == Code::Unavailable || c == Code::DeadlineExceeded) <==> http_code_of(c) >= 500,
        (c == Code::Cancelled || c == Code::InvalidArgument || c == Code::NotFound || c
            == Code::AlreadyExists || c == Code::PermissionDenied || c == Code::ResourceExhausted
            || c == Code::FailedPrecondition || c == Code::Aborted || c == Code::OutOfRange || c
            == Code::Unauthenticated) <==> 400 <= http_code_of(c) < 500,
        c == Code::Unauthenticated <==> http_code_of(c) == 401,
        c == Code::PermissionDenied <==> http_code_of(c) == 403,
        c == Code::NotFound <==> http_code_of(c) == 404,
{
}

/// A failed quota check.
#[derive(Clone, Copy, Debug)]
pub struct QuotaViolation<'a> {
    pub subject: &'a str,
    pub description: &'a str,
}

impl<'a> From<(&'a str, &'a str)> for QuotaViolation<'a> {
    fn from(value: (&'a str, &'a str)) -> (r: Self) {
        QuotaViolation { subject: value.0, description: value.1 }
    }
}

impl<'a> vstd::std_specs::convert::FromSpecImpl<(&'a str, &'a str)> for QuotaViolation<'a> {
    open spec fn obeys_from_spec() -> bool {
        true
    }

    open spec fn from_spec(value: (&'a str, &'a str)) -> Self {
        QuotaViolation { subject: value.0, description: value.1 }
    }
}

/// A precondition that failed.
#[derive(Clone, Copy, Debug)]
pub struct PreconditionViolation<'a> {
    /// The kind of precondition (written `type` in JSON).
    pub violation_type: &'a str,
    pub subject: &'a str,
    pub description: &'a str,
}

impl<'a> From<(&'a str, &'a str, &'a str)> for PreconditionViolation<'a> {
    fn from(value: (&'a str, &'a str, &'a str)) -> (r: Self) {
        PreconditionViolation { violation_type: value.0, subject: value.1, description: value.2 }
    }
}

impl<'a> vstd::std_specs::convert::FromSpecImpl<(&'a str, &'a str, &'a str)> for PreconditionViolation<'a> {
    open spec fn obeys_from_spec() -> bool {
        true
    }

    open spec fn from_spec(value: (&'a str, &'a str, &'a str)) -> Self {
        PreconditionViolation { violation_type: value.0, subject: value.1, description: value.2 }
    }
}

/// A request field that was invalid.
#[derive(Clone, Copy, Debug)]
pub struct FieldViolation<'a> {
    pub filed: &'a str,
    pub description: &'a str,
}

impl<'a> From<(&'a str, &'a str)> for FieldViolation<'a> {
    fn from(value: (&'a str, &'a str)) -> (r: Self) {
        FieldViolation { filed: value.0, description: value.1 }
    }
}

impl<'a> vstd::std_specs::convert::FromSpecImpl<(&'a str, &'a str)> for FieldViolation<'a> {
    open spec fn obeys_from_spec() -> bool {
        true
    }

    open spec fn from_spec(value: (&'a str, &'a str)) -> Self {
        FieldViolation { filed: value.0, description: value.1 }
    }
}

/// A link to documentation.
#[derive(Clone, Copy, Debug)]
pub struct Link<'a> {
    pub description: &'a str,
    pub url: &'a str,
}

/// `Duration` is `Copy`: its `clone` gives the same duration.
pub assume_specification[ <std::time::Duration as Clone>::clone ](d: &Duration) -> (r: Duration)
    ensures
        r == *d,
;

/// A structured detail of an error.
#[derive(Clone, Debug)]
pub enum ErrorDetail<'a> {
    ErrorInfo { reason: &'a str, domain: &'a str, metadata: HashMap<&'a str, &'a str> },
    RetryInfo { retry_delay: Duration },
    DebugInfo { stack_entries: Vec<&'a str>, detail: &'a str },
    QuotaFailure { violations: Vec<QuotaViolation<'a>> },
    PreconditionFailure { violations: Vec<PreconditionViolation<'a>> },
    BadRequest { field_violations: Vec<FieldViolation<'a>> },
    RequestInfo { request_id: &'a str, serving_data: &'a str },
    ResourceInfo {
        resource_type: &'a str,
        resource_name: &'a str,
        owner: &'a str,
        description: &'a str,
    },
    Help { links: Vec<Link<'a>> },
    LocalizedMessage { locale: &'a str, message: &'a str },
}

impl<'a> ErrorDetail<'a> {
    pub fn is_error_info(&self) -> (r: bool)
        ensures
            r == (self is ErrorInfo),
    {
        matches!(self, ErrorDetail::ErrorInfo { .. })
    }

    pub fn is_retry_info(&self) -> (r: bool)
        ensures
            r == (self is RetryInfo),
    {
        matches!(self, ErrorDetail::RetryInfo { .. })
    }

    pub fn is_debug_info(&self) -> (r: bool)
        ensures
            r == (self is DebugInfo),
    {
        matches!(self, ErrorDetail::DebugInfo { .. })
    }

    pub fn is_quota_failure(&self) -> (r: bool)
        ensures
            r == (self is QuotaFailure),
    {
        matches!(self, ErrorDetail::QuotaFailure { .. })
    }

    pub fn is_precondition_failure(&self) -> (r: bool)
        ensures
            r == (self is PreconditionFailure),
    {
        matches!(self, ErrorDetail::PreconditionFailure { .. })
    }

    pub fn is_bad_request(&self) -> (r: bool)
        ensures
            r == (self is BadRequest),
    {
        matches!(self, ErrorDetail::BadRequest { .. })
    }

    pub fn is_request_info(&self) -> (r: bool)
        ensures
            r == (self is RequestInfo),
    {
        matches!(self, ErrorDetail::RequestInfo { .. })
    }

    pub fn is_resource_info(&self) -> (r: bool)
        ensures
            r == (self is ResourceInfo),
    {
        matches!(self, ErrorDetail::ResourceInfo { .. })
    }

    pub fn is_help(&self) -> (r: bool)
        ensures
            r == (self is Help),
    {
        matches!(self, ErrorDetail::Help { .. })
    }

    pub fn is_localized_message(&self) -> (r: bool)
        ensures
            r == (self is LocalizedMessage),
    {
        matches!(self, ErrorDetail::LocalizedMessage { .. })
    }
}

/// Adding a detail to a status.
pub trait StatusExt<'a>: Sized {
    fn add_detail(self, detail: ErrorDetail<'a>) -> Self;
}

/// The error part of an HTTP answer: its details, when it has any.
#[derive(Debug)]
pub struct HttpStatus<E> {
    details: Option<E>,
}

impl<E> HttpStatus<E> {
    /// The details of the status.
    pub closed spec fn spec_details(&self) -> Option<E> {
        self.details
    }

    /// A status with the given details.
    pub fn with_details(details: Option<E>) -> (r: Self)
        ensures
            r.spec_details() == details,
    {
        HttpStatus { details }
    }

    /// The details of the status.
    pub fn details(&self) -> (r: &Option<E>)
        ensures
            *r == self.spec_details(),
    {
        &self.details
    }
}

impl<E> Default for HttpStatus<E> {
    fn default() -> (r: Self)
        ensures
            r.spec_details() is None,
    {
        HttpStatus { details: None }
    }
}

impl<'a> StatusExt<'a> for HttpStatus<Vec<ErrorDetail<'a>>> {
    /// Appends the detail to the status's list (a status without details gets
    /// a list of this one).
    fn add_detail(self, detail: ErrorDetail<'a>) -> (r: Self)
        ensures
            r.spec_details() matches Some(d) && d@ == (match self.spec_details() {
                Some(old_d) => old_d@,
                None => Seq::<ErrorDetail<'a>>::empty(),
            }).push(detail),
    {
        let mut errs = match self.details {
            Some(e) => e,
            None => Vec::new(),
        };
        errs.push(detail);
        HttpStatus { details: Some(errs) }
    }
}

/// A handler's outcome: data (possibly none) or an error (possibly without details).
pub type HttpResult<'a, T> = Result<Option<T>, Option<HttpStatus<Vec<ErrorDetail<'a>>>>>;

/// The answer of the HTTP API: whether it succeeded, its data, its error.
#[derive(Debug)]
pub struct Resp<'a, T> {
    ok: bool,
    data: Option<T>,
    err: Option<HttpStatus<Vec<ErrorDetail<'a>>>>,
}

impl<'a, T> Resp<'a, T> {
    pub closed spec fn spec_ok(&self) -> bool {
        self.ok
    }

    pub closed spec fn spec_data(&self) -> Option<T> {
        self.data
    }

    pub closed spec fn spec_err(&self) -> Option<HttpStatus<Vec<ErrorDetail<'a>>>> {
        self.err
    }

    /// A successful answer with data.
    pub fn ok(data: T) -> (r: Self)
        ensures
            r.spec_ok(),
            r.spec_data() == Some(data),
            r.spec_err() is None,
    {
        Resp { ok: true, data: Some(data), err: None }
    }

    /// A failed answer with the status.
    pub fn failed(status: HttpStatus<Vec<ErrorDetail<'a>>>) -> (r: Self)
        ensures
            !r.spec_ok(),
            r.spec_data() is None,
            r.spec_err() == Some(status),
    {
        Resp { ok: false, data: None, err: Some(status) }
    }

    /// A failed answer whose status has just the one detail.
    pub fn failed_detail(detail: ErrorDetail<'a>) -> (r: Self)
        ensures
            !r.spec_ok(),
            r.spec_data() is None,
            r.spec_err() matches Some(s) && s.spec_details() matches Some(d) && d@ == seq![
                detail,
            ],
    {
        let status: HttpStatus<Vec<ErrorDetail<'a>>> = HttpStatus::default();
        Self::failed(status.add_detail(detail))
    }

    /// Whether the answer succeeded.
    pub fn is_ok(&self) -> (r: bool)
        ensures
            r == self.spec_ok(),
    {
        self.ok
    }

    /// The data of the answer.
    pub fn data(&self) -> (r: &Option<T>)
        ensures
            *r == self.spec_data(),
    {
        &self.data
    }

    /// The error of the answer.
    pub fn err(&self) -> (r: &Option<HttpStatus<Vec<ErrorDetail<'a>>>>)
        ensures
            *r == self.spec_err(),
    {
        &self.err
    }
}

impl<'a, T> From<HttpResult<'a, T>> for Resp<'a, T> {
    /// The answer for a handler's outcome: data makes a successful answer,
    /// an error a failed one.
    fn from(value: HttpResult<'a, T>) -> (r: Self)
        ensures
            r.spec_ok() == value is Ok,
            r.spec_data() == (match value {
                Ok(data) => data,
                Err(_) => None,
            }),
            r.spec_err() == (match value {
                Ok(_) => None,
                Err(err) => err,
            }),
    {
        match value {
            Ok(data) => Resp { ok: true, data, err: None },
            Err(err) => Resp { ok: false, data: None, err },
        }
    }
}

impl<'a, T> vstd::std_specs::convert::FromSpecImpl<HttpResult<'a, T>> for Resp<'a, T> {
    open spec fn obeys_from_spec() -> bool {
        true
    }

    closed spec fn from_spec(value: HttpResult<'a, T>) -> Self {
        match value {
            Ok(data) => Resp { ok: true, data, err: None },
            Err(err) => Resp { ok: false, data: None, err },
        }
    }
}

/// What `Resp::from` makes of a handler's outcome: data makes a successful
/// answer with that data and no error, an error a failed answer with that
/// error and no data.
pub proof fn lemma_resp_from_spec<'a, T>(value: HttpResult<'a, T>)
    ensures
        ({
            let r = <Resp<'a, T> as vstd::std_specs::convert::FromSpec<HttpResult<'a, T>>>::from_spec(value);
            &&& r.spec_ok() == value is Ok
            &&& r.spec_data() == (match value {
                Ok(data) => data,
                Err(_) => None,
            })
            &&& r.spec_err() == (match value {
                Ok(_) => None,
                Err(err) => err,
            })
        }),
{
}

/// A gRPC status: its code, its message and its structured details.
#[derive(Debug)]
pub struct GrpcStatus<'a> {
    code: Code,
    message: String,
    details: Vec<ErrorDetail<'a>>,
}

impl<'a> GrpcStatus<'a> {
    pub closed spec fn spec_code(&self) -> Code {
        self.code
    }

    pub closed spec fn spec_message(&self) -> Seq<char> {
        self.message@
    }

    pub closed spec fn spec_details(&self) -> Seq<ErrorDetail<'a>> {
        self.details@
    }

    /// A status with the code and message and no details.
    pub fn new(code: Code, message: String) -> (r: Self)
        ensures
            r.spec_code() == code,
            r.spec_message() == message@,
            r.spec_details().len() == 0,
    {
        GrpcStatus { code, message, details: Vec::new() }
    }

    /// A status with the code, message and details.
    pub fn with_details(code: Code, message: String, details: Vec<ErrorDetail<'a>>) -> (r: Self)
        ensures
            r.spec_code() == code,
            r.spec_message() == message@,
            r.spec_details() == details@,
    {
        GrpcStatus { code, message, details }
    }

    pub fn code(&self) -> (r: Code)
        ensures
            r == self.spec_code(),
    {
        self.code
    }

    pub fn message(&self) -> (r: &str)
        ensures
            r@ == self.spec_message(),
    {
        self.message.as_str()
    }

    pub fn details(&self) -> (r: &Vec<ErrorDetail<'a>>)
        ensures
            r@ == self.spec_details(),
    {
        &self.details
    }
}

impl<'a> StatusExt<'a> for GrpcStatus<'a> {
    /// Appends the detail to the status's details; code and message stay.
    fn add_detail(self, detail: ErrorDetail<'a>) -> (r: Self)
        ensures
            r.spec_code() == self.spec_code(),
            r.spec_message() == self.spec_message(),
            r.spec_details() == self.spec_details().push(detail),
    {
        let GrpcStatus { code, message, mut details } = self;
        details.push(detail);
        GrpcStatus { code, message, details }
    }
}

} // verus!
