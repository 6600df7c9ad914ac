//! The messages of the services' protocol, and how a server routes a call
//! by its path.
pub mod auth_token;
pub mod celebrity;
pub mod common;
pub mod movie;

use crate::id::chars_equal;
use crate::text::str_chars;
use vstd::prelude::*;

verus! {

/// The answer of a server to a path it does not serve: HTTP status 200 with
/// these headers (gRPC status 12, `Unimplemented`).
pub const UNIMPLEMENTED_HTTP_STATUS: u16 = 200;

/// The gRPC status an unserved path is answered with.
pub const UNIMPLEMENTED_GRPC_STATUS: &'static str = "12";

/// The content type of gRPC answers.
pub const GRPC_CONTENT_TYPE: &'static str = "application/grpc";

/// The headers of the answer to a path a server does not serve.
pub fn unimplemented_headers() -> (r: Vec<(&'static str, &'static str)>)
    ensures
        r@ == seq![("grpc-status", UNIMPLEMENTED_GRPC_STATUS), ("content-type", GRPC_CONTENT_TYPE)],
{
    let r = vec![("grpc-status", UNIMPLEMENTED_GRPC_STATUS), ("content-type", GRPC_CONTENT_TYPE)];
    assert(r@ =~= seq![
        ("grpc-status", UNIMPLEMENTED_GRPC_STATUS),
        ("content-type", GRPC_CONTENT_TYPE),
    ]);
    r
}

/// Whether a request path is the given method path.
pub fn path_is(path: &str, method_path: &str) -> (r: bool)
    ensures
        r == (path@ == method_path@),
{
    let a = str_chars(path);
    let b = str_chars(method_path);
    chars_equal(a.as_slice(), b.as_slice())
}

} // verus!
