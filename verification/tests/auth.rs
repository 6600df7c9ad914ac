use common::auth::{
    after_basic_check, auth_challenges, auth_token, refusal, AuthSettings, BasicCheck, expect_two, parse_token, scan_basic, scan_bearer,
    scan_cookie_token, scan_header_token, AuthRequest, AuthScheme, BasicCredentialError,
    WWW_AUTH_BASIC, WWW_AUTH_BEARER, WWW_AUTH_COOKIE,
};

#[test]
fn bearer_header_is_found() {
    let r = parse_token(Some("Bearer token"), None, false, false);
    assert_eq!(r, Some((AuthScheme::Bearer, "token".to_string())));
}

#[test]
fn basic_header_needs_enabling() {
    let r = parse_token(Some("Basic YWRtaW46YWRtaW4="), None, true, false);
    assert_eq!(r, None);
    let r = parse_token(Some("Basic YWRtaW46YWRtaW4="), None, true, true);
    assert_eq!(r, Some((AuthScheme::Basic, "YWRtaW46YWRtaW4=".to_string())));
}

#[test]
fn cookie_token_is_used_without_header() {
    let r = parse_token(None, Some("a=1; x-token = abc ; b=2"), false, false);
    assert_eq!(r, Some((AuthScheme::Cookie, "abc".to_string())));
}

#[test]
fn last_token_cookie_wins() {
    assert_eq!(scan_cookie_token("x-token=old; x-token=new"), Some("new".to_string()));
}

#[test]
fn token_cookie_without_equals_gives_nothing() {
    assert_eq!(scan_cookie_token("x-tokenabc"), None);
    assert_eq!(scan_cookie_token("a=1"), None);
}

#[test]
fn disabled_cookie_is_never_used() {
    let r = parse_token(None, Some("x-token=abc"), true, true);
    assert_eq!(r, None);
}

#[test]
fn header_wins_over_cookie() {
    let r = parse_token(Some("Bearer h"), Some("x-token=c"), false, false);
    assert_eq!(r, Some((AuthScheme::Bearer, "h".to_string())));
}

#[test]
fn unknown_scheme_falls_back_to_cookie() {
    let r = parse_token(Some("Digest abc"), Some("x-token=c"), false, false);
    assert_eq!(r, Some((AuthScheme::Cookie, "c".to_string())));
    assert_eq!(scan_header_token("Digest abc", true), None);
}

#[test]
fn challenges_follow_the_settings() {
    assert_eq!(auth_challenges(false, true), vec![WWW_AUTH_BEARER]);
    assert_eq!(
        auth_challenges(true, false),
        vec![WWW_AUTH_BEARER, WWW_AUTH_BASIC, WWW_AUTH_COOKIE]
    );
}

#[test]
fn scheme_names() {
    assert_eq!(AuthScheme::Bearer.as_str(), "Bearer");
    assert_eq!(AuthScheme::Basic.as_str(), "Basic");
    assert_eq!(AuthScheme::Cookie.as_str(), "cookie");
}

#[test]
fn bearer_token_asks_for_bearer_check() {
    match auth_token(AuthScheme::Bearer, "tok") {
        AuthRequest::Bearer(t) => assert_eq!(t, "tok"),
        other => panic!("unexpected {:?}", other),
    }
    match auth_token(AuthScheme::Cookie, "tok") {
        AuthRequest::Bearer(t) => assert_eq!(t, "tok"),
        other => panic!("unexpected {:?}", other),
    }
}

#[test]
fn basic_token_is_decoded() {
    match auth_token(AuthScheme::Basic, "YWRtaW46YWRtaW4=") {
        AuthRequest::Basic(u, p) => {
            assert_eq!(u, "admin");
            assert_eq!(p, "admin");
        }
        other => panic!("unexpected {:?}", other),
    }
    match auth_token(AuthScheme::Basic, "dXNlcjpwYXNzOmV4dHJh") {
        AuthRequest::Basic(u, p) => {
            assert_eq!(u, "user");
            assert_eq!(p, "pass");
        }
        other => panic!("unexpected {:?}", other),
    }
}

#[test]
fn basic_token_errors() {
    match auth_token(AuthScheme::Basic, "not base64!") {
        AuthRequest::Reject(e) => assert_eq!(e, BasicCredentialError::Unparsable),
        other => panic!("unexpected {:?}", other),
    }
    match auth_token(AuthScheme::Basic, "//4=") {
        AuthRequest::Reject(e) => assert_eq!(e, BasicCredentialError::Unparsable),
        other => panic!("unexpected {:?}", other),
    }
    match auth_token(AuthScheme::Basic, "bm9wYXNzd29yZA==") {
        AuthRequest::Reject(e) => {
            assert_eq!(e, BasicCredentialError::MissingPassword);
            assert_eq!(e.message(), "authorization failed! cannot found `password` in Basic");
        }
        other => panic!("unexpected {:?}", other),
    }
}

#[test]
fn scan_bearer_strips_scheme() {
    assert_eq!(scan_bearer(Some("Bearer  abc ")), Some("abc".to_string()));
    assert_eq!(scan_bearer(Some("abc")), Some("abc".to_string()));
    assert_eq!(scan_bearer(None), None);
}

#[test]
fn scan_basic_reads_user_and_password() {
    assert_eq!(
        scan_basic(Some("Basic YWRtaW46YWRtaW4=")),
        Some(("admin".to_string(), "admin".to_string()))
    );
    assert_eq!(scan_basic(Some("Basic dXNlcjpwYXNzOmV4dHJh")), None);
    assert_eq!(scan_basic(Some("Basic dXNlcjo=")), Some(("user".to_string(), String::new())));
    assert_eq!(scan_basic(Some("Basic ???")), None);
    assert_eq!(scan_basic(None), None);
}

#[test]
fn expect_two_needs_exactly_two() {
    assert_eq!(expect_two(vec![1, 2]), Some((1, 2)));
    assert_eq!(expect_two(vec![1]), None);
    assert_eq!(expect_two(vec![1, 2, 3]), None);
}

#[test]
fn unauthorized_answer() {
    let r = refusal(AuthSettings::default());
    assert_eq!(r.status, 401);
    assert_eq!(r.challenges, vec![WWW_AUTH_BEARER, WWW_AUTH_COOKIE]);
    let r = refusal(AuthSettings::without_cookie(true));
    assert_eq!(r.challenges, vec![WWW_AUTH_BEARER, WWW_AUTH_BASIC]);
}

#[test]
fn basic_check_falls_back_to_store() {
    assert!(matches!(after_basic_check::<u32>(Ok(7)), BasicCheck::Accepted(7)));
    assert!(matches!(after_basic_check::<u32>(Err("no".to_string())), BasicCheck::AskStore));
}
