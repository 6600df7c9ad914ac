use common::status::prompt::{
    aborted, already_exists, cancelled, data_loss, deadline_exceeded, failed_precondition,
    failed_precondition_violations, internal, invalid_argument, invalid_argument_got, not_found,
    not_implemented, out_of_range, permission_denied, resource_exhausted, unauthenticated,
    unavailable, unknown,
};
use common::status::{
    Code, CodeExt, ErrorDetail, GrpcStatus, HttpStatus, PreconditionViolation, QuotaViolation,
    Resp, StatusExt,
};
use std::collections::HashMap;
use std::time::Duration;

#[test]
fn code_numbers() {
    assert_eq!(Code::Success.to_i32(), 0);
    assert_eq!(Code::Unauthenticated.to_i32(), 16);
    assert_eq!(Code::from_i32(5), Code::NotFound);
    assert_eq!(Code::from_i32(17), Code::Unknown);
    assert_eq!(Code::from_i32(-1), Code::Unknown);
    for i in 0..=16 {
        assert_eq!(Code::from_i32(i).to_i32(), i);
    }
}

#[test]
fn http_codes() {
    assert_eq!(Code::Success.to_http_code(), 200);
    assert_eq!(Code::Cancelled.to_http_code(), 499);
    assert_eq!(Code::InvalidArgument.to_http_code(), 400);
    assert_eq!(Code::DeadlineExceeded.to_http_code(), 504);
    assert_eq!(Code::NotFound.to_http_code(), 404);
    assert_eq!(Code::AlreadyExists.to_http_code(), 409);
    assert_eq!(Code::PermissionDenied.to_http_code(), 403);
    assert_eq!(Code::ResourceExhausted.to_http_code(), 429);
    assert_eq!(Code::Unimplemented.to_http_code(), 501);
    assert_eq!(Code::Unavailable.to_http_code(), 503);
    assert_eq!(Code::Unauthenticated.to_http_code(), 401);
    for i in 1..=16 {
        let h = Code::from_i32(i).to_http_code();
        assert!((400..600).contains(&h));
    }
}

#[test]
fn violations_from_tuples() {
    let q: QuotaViolation = ("auth", "concurrency limit on auth exceed").into();
    assert_eq!(q.subject, "auth");
    assert_eq!(q.description, "concurrency limit on auth exceed");
    let p: PreconditionViolation = ("TOS", "auth.service", "Term of auth service is not accept.").into();
    assert_eq!(p.violation_type, "TOS");
    assert_eq!(p.subject, "auth.service");
}

#[test]
fn details_are_appended() {
    let s: HttpStatus<Vec<ErrorDetail>> = HttpStatus::default();
    assert!(s.details().is_none());
    let s = s.add_detail(ErrorDetail::RetryInfo { retry_delay: Duration::from_secs(1) });
    let s = s.add_detail(ErrorDetail::LocalizedMessage { locale: "en", message: "hi" });
    let d = s.details().as_ref().unwrap();
    assert_eq!(d.len(), 2);
    assert!(d[0].is_retry_info());
    assert!(d[1].is_localized_message());
    assert!(!d[1].is_help());
}

#[test]
fn answers() {
    let ok: Resp<u32> = Resp::ok(3);
    assert!(ok.is_ok());
    assert_eq!(ok.data(), &Some(3));
    assert!(ok.err().is_none());
    let failed: Resp<u32> =
        Resp::failed_detail(ErrorDetail::RequestInfo { request_id: "r1", serving_data: "" });
    assert!(!failed.is_ok());
    assert!(failed.data().is_none());
    let details = failed.err().as_ref().unwrap().details().as_ref().unwrap();
    assert_eq!(details.len(), 1);
    assert!(details[0].is_request_info());
    let from_ok: Resp<u32> = Resp::from(Ok(Some(1)));
    assert!(from_ok.is_ok());
    assert_eq!(from_ok.data(), &Some(1));
    let from_err: Resp<u32> = Resp::from(Err(None));
    assert!(!from_err.is_ok());
    assert!(from_err.err().is_none());
}

#[test]
fn grpc_status_details() {
    let s = GrpcStatus::new(Code::Internal, "boom".to_string());
    let s = s.add_detail(ErrorDetail::Help { links: vec![] });
    assert_eq!(s.code(), Code::Internal);
    assert_eq!(s.message(), "boom");
    assert_eq!(s.details().len(), 1);
    assert!(s.details()[0].is_help());
}

#[test]
fn prompt_messages() {
    assert_eq!(invalid_argument("aud", None).message(), "Request field 'aud' is invalid.");
    assert_eq!(
        invalid_argument("aud", Some("bad_aud")).message(),
        "Request field 'aud' is invalid, expected bad_aud."
    );
    let s = invalid_argument_got("aud", "bad_aud", "one of [\"good_aud\", \"better_aud\"]");
    assert_eq!(s.code(), Code::InvalidArgument);
    assert_eq!(
        s.message(),
        "Request field 'aud' is 'bad_aud', expected one of [\"good_aud\", \"better_aud\"]."
    );
    assert_eq!(out_of_range("page", None, 15).message(), "Parameter 'page' is out of range [0, 15].");
    assert_eq!(
        out_of_range("page", Some(2), 15).message(),
        "Parameter 'page' is out of range [2, 15]."
    );
    assert_eq!(permission_denied("write", None).message(), "Permission 'write' denied.");
    assert_eq!(
        permission_denied("write", Some("movie")).message(),
        "Permission 'write' denied on resource 'movie'."
    );
    assert_eq!(not_found(None).message(), "Resource not found.");
    assert_eq!(not_found(Some("movie")).message(), "Resource 'movie' not found.");
    assert_eq!(not_found(Some("movie")).code(), Code::NotFound);
    assert_eq!(already_exists(None).message(), "Resource already exists.");
    assert_eq!(already_exists(Some("movie")).message(), "Resource 'movie' already exists.");
    assert_eq!(cancelled().message(), "Request cancelled by the client.");
    assert_eq!(not_implemented(Some("GET")).message(), "Method 'GET' not implemented.");
    assert_eq!(not_implemented(None).code(), Code::Unimplemented);
    assert_eq!(failed_precondition("Directory hah is not empty.".to_string()).message(), "Directory hah is not empty.");
}

#[test]
fn prompt_details() {
    let s = unauthenticated(Some(("json web token is expired", "bad.apple", HashMap::from([("good", "boy")]))));
    assert_eq!(s.code(), Code::Unauthenticated);
    assert_eq!(s.message(), "Invalid authentication credentials.");
    assert_eq!(s.details().len(), 1);
    assert!(s.details()[0].is_error_info());
    assert!(unauthenticated(None).details().is_empty());
    let s = aborted(Some(("expired", "bad.apple", HashMap::new())));
    assert_eq!(s.message(), "Request aborted.");
    assert!(s.details()[0].is_error_info());
    let s = resource_exhausted(Some(vec![("auth", "concurrency limit on auth exceed").into()]));
    assert_eq!(s.message(), "Too many requests.");
    assert!(s.details()[0].is_quota_failure());
    let s = failed_precondition_violations(vec![("TOS", "auth.service", "not accepted").into()]);
    assert_eq!(s.code(), Code::FailedPrecondition);
    assert_eq!(s.message(), "Operation failed.");
    assert!(s.details()[0].is_precondition_failure());
    let s = data_loss(Some(("missing encode key!", vec!["a", "b"])));
    assert_eq!(s.code(), Code::DataLoss);
    assert_eq!(s.message(), "Internal error.");
    assert!(s.details()[0].is_debug_info());
    assert_eq!(unknown(None).message(), "Unknown error.");
    assert!(unknown(None).details().is_empty());
    assert_eq!(internal(None).code(), Code::Internal);
    assert_eq!(unavailable(None).message(), "Service Unavailable.");
    assert_eq!(deadline_exceeded(None).message(), "Gateway timeout.");
}
