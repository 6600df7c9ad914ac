//! Statuses with the fixed messages the services answer with: each names
//! the code, says what went wrong in a sentence, and may carry a detail.
use crate::decimal::{decimal, format_u64};
use crate::status::{
    Code, ErrorDetail, GrpcStatus, PreconditionViolation, QuotaViolation, StatusExt,
};
use crate::text::{str_chars, string_from_chars};
use std::collections::HashMap;
use vstd::prelude::*;

verus! {

/// The characters of the pieces, one after the other.
pub open spec fn joined(parts: Seq<&str>) -> Seq<char>
    decreases parts.len(),
{
    if parts.len() == 0 {
        Seq::empty()
    } else {
        joined(parts.drop_last()) + parts.last()@
    }
}

/// The pieces joined into one string.
fn join(parts: &[&str]) -> (r: String)
    ensures
        r@ == joined(parts@),
{
    let mut v: Vec<char> = Vec::new();
    let mut i: usize = 0;
    while i < parts.len()
        invariant
            i <= parts@.len(),
            v@ == joined(parts@.take(i as int)),
        decreases parts@.len() - i,
    {
        let c = str_chars(parts[i]);
        let ghost before = v@;
        let mut j: usize = 0;
        while j < c.len()
            invariant
                j <= c@.len(),
                v@ == before + c@.take(j as int),
            decreases c@.len() - j,
        {
            v.push(c[j]);
            j = j + 1;
            assert(v@ =~= before + c@.take(j as int));
        }
        proof {
            assert(c@.take(c@.len() as int) =~= c@);
            assert(parts@.take(i + 1).drop_last() =~= parts@.take(i as int));
        }
        i = i + 1;
    }
    assert(parts@.take(parts@.len() as int) =~= parts@);
    string_from_chars(v.as_slice())
}

proof fn lemma_joined_push(s: Seq<&str>, x: &str)
    ensures
        joined(s.push(x)) == joined(s) + x@,
{
    assert(s.push(x).drop_last() =~= s);
}

proof fn lemma_joined3(a: &str, b: &str, c: &str)
    ensures
        joined(seq![a, b, c]) == a@ + b@ + c@,
{
    lemma_joined_push(Seq::empty(), a);
    lemma_joined_push(seq![a], b);
    lemma_joined_push(seq![a, b], c);
    assert(Seq::<&str>::empty().push(a) =~= seq![a]);
    assert(seq![a].push(b) =~= seq![a, b]);
    assert(seq![a, b].push(c) =~= seq![a, b, c]);
    assert(joined(Seq::<&str>::empty()) == Seq::<char>::empty());
    assert(Seq::<char>::empty() + a@ =~= a@);
}

proof fn lemma_joined5(a: &str, b: &str, c: &str, d: &str, e: &str)
    ensures
        joined(seq![a, b, c, d, e]) == a@ + b@ + c@ + d@ + e@,
{
    lemma_joined3(a, b, c);
    lemma_joined_push(seq![a, b, c], d);
    lemma_joined_push(seq![a, b, c, d], e);
    assert(seq![a, b, c].push(d) =~= seq![a, b, c, d]);
    assert(seq![a, b, c, d].push(e) =~= seq![a, b, c, d, e]);
}

proof fn lemma_joined7(a: &str, b: &str, c: &str, d: &str, e: &str, f: &str, g: &str)
    ensures
        joined(seq![a, b, c, d, e, f, g]) == a@ + b@ + c@ + d@ + e@ + f@ + g@,
{
    lemma_joined5(a, b, c, d, e);
    lemma_joined_push(seq![a, b, c, d, e], f);
    lemma_joined_push(seq![a, b, c, d, e, f], g);
    assert(seq![a, b, c, d, e].push(f) =~= seq![a, b, c, d, e, f]);
    assert(seq![a, b, c, d, e, f].push(g) =~= seq![a, b, c, d, e, f, g]);
}

fn join3(a: &str, b: &str, c: &str) -> (r: String)
    ensures
        r@ == a@ + b@ + c@,
{
    let parts = [a, b, c];
    proof {
        lemma_joined3(a, b, c);
        assert(parts@ =~= seq![a, b, c]);
    }
    join(&parts)
}

fn join5(a: &str, b: &str, c: &str, d: &str, e: &str) -> (r: String)
    ensures
        r@ == a@ + b@ + c@ + d@ + e@,
{
    let parts = [a, b, c, d, e];
    proof {
        lemma_joined5(a, b, c, d, e);
        assert(parts@ =~= seq![a, b, c, d, e]);
    }
    join(&parts)
}

fn join7(a: &str, b: &str, c: &str, d: &str, e: &str, f: &str, g: &str) -> (r: String)
    ensures
        r@ == a@ + b@ + c@ + d@ + e@ + f@ + g@,
{
    let parts = [a, b, c, d, e, f, g];
    proof {
        lemma_joined7(a, b, c, d, e, f, g);
        assert(parts@ =~= seq![a, b, c, d, e, f, g]);
    }
    join(&parts)
}

fn owned(s: &str) -> (r: String)
    ensures
        r@ == s@,
{
    let c = str_chars(s);
    string_from_chars(c.as_slice())
}

fn decimal_text(n: u64) -> (r: String)
    ensures
        r@ == decimal(n as nat),
{
    let d = format_u64(n);
    string_from_chars(d.as_slice())
}

/// A field of the request is invalid: `Request field '<field>' is
/// invalid.`, or, with what was expected, `Request field '<field>' is
/// invalid, expected <expect>.`
pub fn invalid_argument<'a>(field: &str, expect: Option<&str>) -> (r: GrpcStatus<'a>)
    ensures
        r.spec_code() == Code::InvalidArgument,
        r.spec_details().len() == 0,
        r.spec_message() == (match expect {
            Some(e) => "Request field '"@ + field@ + "' is invalid, expected "@ + e@ + "."@,
            None => "Request field '"@ + field@ + "' is invalid."@,
        }),
{
    let message = match expect {
        Some(e) => join5("Request field '", field, "' is invalid, expected ", e, "."),
        None => join3("Request field '", field, "' is invalid."),
    };
    GrpcStatus::new(Code::InvalidArgument, message)
}

/// A field of the request has a value other than expected: `Request field
/// '<field>' is '<got>', expected <expect>.`
pub fn invalid_argument_got<'a>(field: &str, got: &str, expect: &str) -> (r: GrpcStatus<'a>)
    ensures
        r.spec_code() == Code::InvalidArgument,
        r.spec_details().len() == 0,
        r.spec_message() == "Request field '"@ + field@ + "' is '"@ + got@ + "', expected "@ + expect@
            + "."@,
{
    let message = join7("Request field '", field, "' is '", got, "', expected ", expect, ".");
    GrpcStatus::new(Code::InvalidArgument, message)
}

/// The operation failed on these violated preconditions: `Operation
/// failed.`, with the violations as a detail.
pub fn failed_precondition_violations<'a>(violations: Vec<PreconditionViolation<'a>>) -> (r:
    GrpcStatus<'a>)
    ensures
        r.spec_code() == Code::FailedPrecondition,
        r.spec_message() == "Operation failed."@,
        r.spec_details() == seq![ErrorDetail::PreconditionFailure { violations }],
{
    let s = GrpcStatus::new(Code::FailedPrecondition, owned("Operation failed."));
    s.add_detail(ErrorDetail::PreconditionFailure { violations })
}

/// The operation failed on a precondition, with the message given.
pub fn failed_precondition<'a>(message: String) -> (r: GrpcStatus<'a>)
    ensures
        r.spec_code() == Code::FailedPrecondition,
        r.spec_message() == message@,
        r.spec_details().len() == 0,
{
    GrpcStatus::new(Code::FailedPrecondition, message)
}

/// A parameter is out of its range: `Parameter '<field>' is out of range
/// [<start>, <end>].`, the range starting at 0 when no start is given.
pub fn out_of_range<'a>(field: &str, start: Option<u64>, end: u64) -> (r: GrpcStatus<'a>)
    ensures
        r.spec_code() == Code::OutOfRange,
        r.spec_details().len() == 0,
        r.spec_message() == "Parameter '"@ + field@ + "' is out of range ["@ + decimal(
            (match start {
                Some(s) => s,
                None => 0u64,
            }) as nat,
        ) + ", "@ + decimal(end as nat) + "]."@,
{
    let s = match start {
        Some(s) => s,
        None => 0,
    };
    let st = decimal_text(s);
    let en = decimal_text(end);
    let message = join7(
        "Parameter '",
        field,
        "' is out of range [",
        st.as_str(),
        ", ",
        en.as_str(),
        "].",
    );
    GrpcStatus::new(Code::OutOfRange, message)
}

/// The credentials are invalid: `Invalid authentication credentials.`,
/// with the reason, domain and metadata of the error as a detail when given.
pub fn unauthenticated<'a>(info: Option<(&'a str, &'a str, HashMap<&'a str, &'a str>)>) -> (r:
    GrpcStatus<'a>)
    ensures
        r.spec_code() == Code::Unauthenticated,
        r.spec_message() == "Invalid authentication credentials."@,
        r.spec_details() == (match info {
            Some((reason, domain, metadata)) => seq![
                ErrorDetail::ErrorInfo { reason, domain, metadata },
            ],
            None => Seq::<ErrorDetail<'a>>::empty(),
        }),
{
    let s = GrpcStatus::new(Code::Unauthenticated, owned("Invalid authentication credentials."));
    match info {
        Some((reason, domain, metadata)) => s.add_detail(
            ErrorDetail::ErrorInfo { reason, domain, metadata },
        ),
        None => s,
    }
}

/// A permission is denied: `Permission '<perm>' denied.`, or, on a named
/// resource, `Permission '<perm>' denied on resource '<src>'.`
pub fn permission_denied<'a>(perm: &str, src: Option<&str>) -> (r: GrpcStatus<'a>)
    ensures
        r.spec_code() == Code::PermissionDenied,
        r.spec_details().len() == 0,
        r.spec_message() == (match src {
            Some(s) => "Permission '"@ + perm@ + "' denied on resource '"@ + s@ + "'."@,
            None => "Permission '"@ + perm@ + "' denied."@,
        }),
{
    let message = match src {
        Some(s) => join5("Permission '", perm, "' denied on resource '", s, "'."),
        None => join3("Permission '", perm, "' denied."),
    };
    GrpcStatus::new(Code::PermissionDenied, message)
}

/// A resource is missing: `Resource not found.`, or `Resource '<src>' not
/// found.`
pub fn not_found<'a>(src: Option<&str>) -> (r: GrpcStatus<'a>)
    ensures
        r.spec_code() == Code::NotFound,
        r.spec_details().len() == 0,
        r.spec_message() == (match src {
            Some(s) => "Resource '"@ + s@ + "' not found."@,
            None => "Resource not found."@,
        }),
{
    let message = match src {
        Some(s) => join3("Resource '", s, "' not found."),
        None => owned("Resource not found."),
    };
    GrpcStatus::new(Code::NotFound, message)
}

/// The request was aborted: `Request aborted.`, with the reason, domain and
/// metadata of the error as a detail when given.
pub fn aborted<'a>(info: Option<(&'a str, &'a str, HashMap<&'a str, &'a str>)>) -> (r: GrpcStatus<
    'a,
>)
    ensures
        r.spec_code() == Code::Aborted,
        r.spec_message() == "Request aborted."@,
        r.spec_details() == (match info {
            Some((reason, domain, metadata)) => seq![
                ErrorDetail::ErrorInfo { reason, domain, metadata },
            ],
            None => Seq::<ErrorDetail<'a>>::empty(),
        }),
{
    let s = GrpcStatus::new(Code::Aborted, owned("Request aborted."));
    match info {
        Some((reason, domain, metadata)) => s.add_detail(
            ErrorDetail::ErrorInfo { reason, domain, metadata },
        ),
        None => s,
    }
}

/// A resource exists already: `Resource already exists.`, or `Resource
/// '<src>' already exists.`
pub fn already_exists<'a>(src: Option<&str>) -> (r: GrpcStatus<'a>)
    ensures
        r.spec_code() == Code::AlreadyExists,
        r.spec_details().len() == 0,
        r.spec_message() == (match src {
            Some(s) => "Resource '"@ + s@ + "' already exists."@,
            None => "Resource already exists."@,
        }),
{
    let message = match src {
        Some(s) => join3("Resource '", s, "' already exists."),
        None => owned("Resource already exists."),
    };
    GrpcStatus::new(Code::AlreadyExists, message)
}

/// Too many requests: `Too many requests.`, with the violated quotas as a
/// detail when given.
pub fn resource_exhausted<'a>(violations: Option<Vec<QuotaViolation<'a>>>) -> (r: GrpcStatus<'a>)
    ensures
        r.spec_code() == Code::ResourceExhausted,
        r.spec_message() == "Too many requests."@,
        r.spec_details() == (match violations {
            Some(v) => seq![ErrorDetail::QuotaFailure { violations: v }],
            None => Seq::<ErrorDetail<'a>>::empty(),
        }),
{
    let s = GrpcStatus::new(Code::ResourceExhausted, owned("Too many requests."));
    match violations {
        Some(v) => s.add_detail(ErrorDetail::QuotaFailure { violations: v }),
        None => s,
    }
}

/// The client cancelled the request: `Request cancelled by the client.`
pub fn cancelled<'a>() -> (r: GrpcStatus<'a>)
    ensures
        r.spec_code() == Code::Cancelled,
        r.spec_message() == "Request cancelled by the client."@,
        r.spec_details().len() == 0,
{
    GrpcStatus::new(Code::Cancelled, owned("Request cancelled by the client."))
}

/// The method is not implemented: `Not implemented.`, or `Method '<m>' not
/// implemented.`
pub fn not_implemented<'a>(method: Option<&str>) -> (r: GrpcStatus<'a>)
    ensures
        r.spec_code() == Code::Unimplemented,
        r.spec_details().len() == 0,
        r.spec_message() == (match method {
            Some(m) => "Method '"@ + m@ + "' not implemented."@,
            None => "Not implemented."@,
        }),
{
    let message = match method {
        Some(m) => join3("Method '", m, "' not implemented."),
        None => owned("Not implemented."),
    };
    GrpcStatus::new(Code::Unimplemented, message)
}

/// The details of a server-side failure: a debugging note with the stack
/// entries given, when there is a note.
pub open spec fn debug_details<'a>(debug: Option<(&'a str, Vec<&'a str>)>) -> Seq<ErrorDetail<'a>> {
    match debug {
        Some((detail, stack_entries)) => seq![ErrorDetail::DebugInfo { stack_entries, detail }],
        None => Seq::empty(),
    }
}

fn debug_status<'a>(code: Code, message: &str, debug: Option<(&'a str, Vec<&'a str>)>) -> (r:
    GrpcStatus<'a>)
    ensures
        r.spec_code() == code,
        r.spec_message() == message@,
        r.spec_details() == debug_details(debug),
{
    let s = GrpcStatus::new(code, owned(message));
    match debug {
        Some((detail, stack_entries)) => s.add_detail(
            ErrorDetail::DebugInfo { stack_entries, detail },
        ),
        None => s,
    }
}

/// Data was lost: `Internal error.`, with the debugging note when given.
pub fn data_loss<'a>(debug: Option<(&'a str, Vec<&'a str>)>) -> (r: GrpcStatus<'a>)
    ensures
        r.spec_code() == Code::DataLoss,
        r.spec_message() == "Internal error."@,
        r.spec_details() == debug_details(debug),
{
    debug_status(Code::DataLoss, "Internal error.", debug)
}

/// An unknown error: `Unknown error.`, with the debugging note when given.
pub fn unknown<'a>(debug: Option<(&'a str, Vec<&'a str>)>) -> (r: GrpcStatus<'a>)
    ensures
        r.spec_code() == Code::Unknown,
        r.spec_message() == "Unknown error."@,
        r.spec_details() == debug_details(debug),
{
    debug_status(Code::Unknown, "Unknown error.", debug)
}

/// An internal error: `Internal error.`, with the debugging note when given.
pub fn internal<'a>(debug: Option<(&'a str, Vec<&'a str>)>) -> (r: GrpcStatus<'a>)
    ensures
        r.spec_code() == Code::Internal,
        r.spec_message() == "Internal error."@,
        r.spec_details() == debug_details(debug),
{
    debug_status(Code::Internal, "Internal error.", debug)
}

/// The service is unavailable: `Service Unavailable.`, with the debugging
/// note when given.
pub fn unavailable<'a>(debug: Option<(&'a str, Vec<&'a str>)>) -> (r: GrpcStatus<'a>)
    ensures
        r.spec_code() == Code::Unavailable,
        r.spec_message() == "Service Unavailable."@,
        r.spec_details() == debug_details(debug),
{
    debug_status(Code::Unavailable, "Service Unavailable.", debug)
}

/// The deadline passed: `Gateway timeout.`, with the debugging note when
/// given.
pub fn deadline_exceeded<'a>(debug: Option<(&'a str, Vec<&'a str>)>) -> (r: GrpcStatus<'a>)
    ensures
        r.spec_code() == Code::DeadlineExceeded,
        r.spec_message() == "Gateway timeout."@,
        r.spec_details() == debug_details(debug),
{
    debug_status(Code::DeadlineExceeded, "Gateway timeout.", debug)
}

} // verus!
