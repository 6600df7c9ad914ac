//! How a request's credentials are found and read: the scheme and token in
//! the `Authorization` header or the `x-token` cookie, the user name and
//! password of a `Basic` credential, and the challenges an unauthorized
//! answer carries.
use crate::text::{
    is_whitespace, lemma_split_two, chars_start_with, split_char, split_chars, starts_with, str_chars, string_from_chars, sub_chars,
    trim, trim_chars, trim_start_matches, trim_start_matches_chars,
};
use vstd::prelude::*;
use vstd::utf8::{decode_utf8, valid_utf8};

verus! {

/// The name of the application, in challenges and in the command line.
pub const APP_NAME: &'static str = "douban-web";

/// The header that carries credentials.
pub const AUTH_HEADER: &'static str = "authorization";

/// The cookie that carries a bearer token.
pub const AUTH_COOKIE: &'static str = "x-token";

/// The scheme of an encrypted json web token.
pub const AUTH_SCHEME_BEARER: &'static str = "Bearer";

/// The scheme of `base64(<username>:<password>)` credentials.
pub const AUTH_SCHEME_BASIC: &'static str = "Basic";

/// The challenge answered when basic credentials are accepted.
pub const WWW_AUTH_BASIC: &'static str = "Basic realm=douban-web-http-auth,charset=UTF-8";

/// The challenge answered for bearer tokens.
pub const WWW_AUTH_BEARER: &'static str = "Bearer realm=douban-web-http-auth,charset=UTF-8";

/// The challenge answered when the token cookie is accepted.
pub const WWW_AUTH_COOKIE: &'static str =
    "Cookie realm=douban-web-http-auth,charset=UTF-8,cookie-name=x-token";

/// Where a credential was found.
#[derive(Clone, Copy, Debug, PartialEq, Eq, Structural)]
pub enum AuthScheme {
    /// `Authorization: Bearer <token>`.
    Bearer,
    /// `Authorization: Basic <base64 credentials>`.
    Basic,
    /// The `x-token` cookie.
    Cookie,
}

impl AuthScheme {
    /// The name of the scheme: the header scheme word, or the name of the
    /// `Cookie` header for a cookie token.
    pub fn as_str(&self) -> (r: &'static str)
        ensures
            r == (match self {
                AuthScheme::Bearer => AUTH_SCHEME_BEARER,
                AuthScheme::Basic => AUTH_SCHEME_BASIC,
                AuthScheme::Cookie => "cookie",
            }),
    {
        match self {
            AuthScheme::Bearer => AUTH_SCHEME_BEARER,
            AuthScheme::Basic => AUTH_SCHEME_BASIC,
            AuthScheme::Cookie => "cookie",
        }
    }
}

/// `Bearer`.
pub open spec fn bearer_word() -> Seq<char> {
    seq!['B', 'e', 'a', 'r', 'e', 'r']
}

/// `Basic`.
pub open spec fn basic_word() -> Seq<char> {
    seq!['B', 'a', 's', 'i', 'c']
}

/// `x-token`.
pub open spec fn cookie_word() -> Seq<char> {
    seq!['x', '-', 't', 'o', 'k', 'e', 'n']
}

/// The credential in an `Authorization` header value `h`: the scheme it
/// starts with, and what is left once every leading `Bearer`, then every
/// leading `Basic`, and then surrounding whitespace are removed. `Basic`
/// counts only when basic credentials are accepted.
pub open spec fn header_token(h: Seq<char>, enable_basic_auth: bool) -> Option<(AuthScheme, Seq<char>)> {
    let token = trim(trim_start_matches(trim_start_matches(h, bearer_word()), basic_word()));
    if starts_with(h, bearer_word()) {
        Some((AuthScheme::Bearer, token))
    } else if starts_with(h, basic_word()) && enable_basic_auth {
        Some((AuthScheme::Basic, token))
    } else {
        None
    }
}

/// The last of the trimmed cookie pieces that starts with `x-token`.
pub open spec fn last_auth_cookie(pieces: Seq<Seq<char>>) -> Option<Seq<char>>
    decreases pieces.len(),
{
    if pieces.len() == 0 {
        None
    } else if starts_with(trim(pieces.last()), cookie_word()) {
        Some(trim(pieces.last()))
    } else {
        last_auth_cookie(pieces.drop_last())
    }
}

/// The token in a `Cookie` header value `h`: the last `;`-separated piece
/// that starts with `x-token` must continue with `=` (after optional
/// whitespace); the token is the trimmed rest.
pub open spec fn cookie_token(h: Seq<char>) -> Option<Seq<char>> {
    match last_auth_cookie(split_char(h, ';')) {
        None => None,
        Some(c) => {
            let rest = trim(c.skip(7));
            if rest.len() > 0 && rest[0] == '=' {
                Some(trim(rest.drop_first()))
            } else {
                None
            }
        },
    }
}

/// The credential of a request with the given `Authorization` and `Cookie`
/// header values: the header's, when it has one; otherwise the cookie's,
/// unless cookies are disabled.
pub open spec fn request_token(
    auth: Option<Seq<char>>,
    cookie: Option<Seq<char>>,
    disable_cookie: bool,
    enable_basic_auth: bool,
) -> Option<(AuthScheme, Seq<char>)> {
    let header = match auth {
        Some(h) => header_token(h, enable_basic_auth),
        None => None,
    };
    if disable_cookie || header is Some {
        header
    } else {
        match cookie {
            Some(c) => match cookie_token(c) {
                Some(t) => Some((AuthScheme::Cookie, t)),
                None => None,
            },
            None => None,
        }
    }
}

/// The view of a found credential.
pub open spec fn token_view(r: Option<(AuthScheme, String)>) -> Option<(AuthScheme, Seq<char>)> {
    match r {
        Some((s, t)) => Some((s, t@)),
        None => None,
    }
}

/// The view of an optional text.
pub open spec fn opt_view(r: Option<&str>) -> Option<Seq<char>> {
    match r {
        Some(s) => Some(s@),
        None => None,
    }
}

fn bearer_chars() -> (r: Vec<char>)
    ensures
        r@ == bearer_word(),
{
    let r = vec!['B', 'e', 'a', 'r', 'e', 'r'];
    assert(r@ =~= bearer_word());
    r
}

fn basic_chars() -> (r: Vec<char>)
    ensures
        r@ == basic_word(),
{
    let r = vec!['B', 'a', 's', 'i', 'c'];
    assert(r@ =~= basic_word());
    r
}

fn cookie_chars() -> (r: Vec<char>)
    ensures
        r@ == cookie_word(),
{
    let r = vec!['x', '-', 't', 'o', 'k', 'e', 'n'];
    assert(r@ =~= cookie_word());
    r
}

/// The credential in an `Authorization` header value.
pub fn scan_header_token(h: &str, enable_basic_auth: bool) -> (r: Option<(AuthScheme, String)>)
    ensures
        token_view(r) == header_token(h@, enable_basic_auth),
{
    let hv = str_chars(h);
    let bearer = bearer_chars();
    let basic = basic_chars();
    let a = trim_start_matches_chars(hv.as_slice(), bearer.as_slice());
    let b = trim_start_matches_chars(a.as_slice(), basic.as_slice());
    let t = trim_chars(b.as_slice());
    if chars_start_with(hv.as_slice(), bearer.as_slice()) {
        Some((AuthScheme::Bearer, string_from_chars(t.as_slice())))
    } else if chars_start_with(hv.as_slice(), basic.as_slice()) && enable_basic_auth {
        Some((AuthScheme::Basic, string_from_chars(t.as_slice())))
    } else {
        None
    }
}

/// The token of the `x-token` cookie in a `Cookie` header value.
pub fn scan_cookie_token(h: &str) -> (r: Option<String>)
    ensures
        r matches Some(t) ==> cookie_token(h@) == Some(t@),
        r is None ==> cookie_token(h@) is None,
{
    let hv = str_chars(h);
    let pieces = split_chars(hv.as_slice(), ';');
    let ghost sp = split_char(h@, ';');
    let name = cookie_chars();
    let mut i: usize = pieces.len();
    let mut found: Option<Vec<char>> = None;
    assert(sp.take(sp.len() as int) =~= sp);
    while i > 0
        invariant_except_break
            found is None,
        invariant
            i <= pieces@.len(),
            pieces@.len() == sp.len(),
            forall|k: int| 0 <= k < pieces@.len() ==> #[trigger] pieces@[k]@ == sp[k],
            name@ == cookie_word(),
            found is None ==> last_auth_cookie(sp) == last_auth_cookie(sp.take(i as int)),
            found matches Some(c) ==> last_auth_cookie(sp) == Some(c@) && c@.len() >= 7,
        ensures
            found is None ==> i == 0,
        decreases i,
    {
        let ghost pre = sp.take(i as int);
        assert(pre.drop_last() =~= sp.take(i - 1));
        assert(pre.last() == sp[i - 1]);
        let t = trim_chars(pieces[i - 1].as_slice());
        if chars_start_with(t.as_slice(), name.as_slice()) {
            assert(last_auth_cookie(pre) == Some(t@));
            assert(cookie_word().len() == 7);
            found = Some(t);
            break;
        }
        i = i - 1;
    }
    match found {
        None => {
            assert(sp.take(0) =~= Seq::<Seq<char>>::empty());
            None
        },
        Some(c) => {
            if c.len() < 7 {
                return None;
            }
            let after = sub_chars(c.as_slice(), 7, c.len());
            assert(after@ =~= c@.skip(7));
            let rest = trim_chars(after.as_slice());
            if rest.len() > 0 && rest[0] == '=' {
                let v = sub_chars(rest.as_slice(), 1, rest.len());
                assert(v@ =~= rest@.drop_first());
                let tok = trim_chars(v.as_slice());
                Some(string_from_chars(tok.as_slice()))
            } else {
                None
            }
        },
    }
}

/// Finds the credential of a request from its `Authorization` and `Cookie`
/// header values (each absent when the request has none, or when it is not
/// visible ASCII text).
pub fn parse_token(
    auth_header: Option<&str>,
    cookie_header: Option<&str>,
    disable_cookie: bool,
    enable_basic_auth: bool,
) -> (r: Option<(AuthScheme, String)>)
    ensures
        token_view(r) == request_token(
            opt_view(auth_header),
            opt_view(cookie_header),
            disable_cookie,
            enable_basic_auth,
        ),
{
    let header = match auth_header {
        Some(h) => scan_header_token(h, enable_basic_auth),
        None => None,
    };
    if disable_cookie || header.is_some() {
        return header;
    }
    match cookie_header {
        Some(c) => match scan_cookie_token(c) {
            Some(t) => Some((AuthScheme::Cookie, t)),
            None => None,
        },
        None => None,
    }
}

/// With cookies disabled, no credential is ever taken from a cookie.
pub proof fn lemma_disabled_cookie_never_used(
    auth: Option<Seq<char>>,
    cookie: Option<Seq<char>>,
    enable_basic_auth: bool,
)
    ensures
        !(request_token(auth, cookie, true, enable_basic_auth) matches Some((s, _)) && s
            == AuthScheme::Cookie),
{
}

/// With basic credentials not accepted, no credential is ever taken as `Basic`.
pub proof fn lemma_basic_needs_enabling(
    auth: Option<Seq<char>>,
    cookie: Option<Seq<char>>,
    disable_cookie: bool,
)
    ensures
        !(request_token(auth, cookie, disable_cookie, false) matches Some((s, _)) && s
            == AuthScheme::Basic),
{
}

/// A credential in the `Authorization` header wins over any cookie.
pub proof fn lemma_header_wins(
    h: Seq<char>,
    cookie: Option<Seq<char>>,
    disable_cookie: bool,
    enable_basic_auth: bool,
)
    requires
        header_token(h, enable_basic_auth) is Some,
    ensures
        request_token(Some(h), cookie, disable_cookie, enable_basic_auth) == header_token(
            h,
            enable_basic_auth,
        ),
{
}

/// How the authentication middleware treats credentials: whether the token
/// cookie is ignored, whether `Basic` credentials are accepted, and how long
/// a refreshed token cookie lives, in seconds.
#[derive(Clone, Copy, Debug, PartialEq, Eq, Structural)]
pub struct AuthSettings {
    pub disable_cookie: bool,
    pub enable_basic_auth: bool,
    pub cookie_max_age: i64,
}

impl AuthSettings {
    /// The settings given.
    pub fn new(enable_basic_auth: bool, disable_cookie: bool, cookie_max_age: i64) -> (r: Self)
        ensures
            r == (AuthSettings { disable_cookie, enable_basic_auth, cookie_max_age }),
    {
        AuthSettings { disable_cookie, enable_basic_auth, cookie_max_age }
    }

    /// Settings that ignore the token cookie (and so never refresh it).
    pub fn without_cookie(enable_basic_auth: bool) -> (r: Self)
        ensures
            r == (AuthSettings { disable_cookie: true, enable_basic_auth, cookie_max_age: 0 }),
    {
        AuthSettings { disable_cookie: true, enable_basic_auth, cookie_max_age: 0 }
    }
}

impl Default for AuthSettings {
    /// Cookies used, `Basic` credentials refused, cookies living two days.
    fn default() -> (r: Self)
        ensures
            r == (AuthSettings {
                disable_cookie: false,
                enable_basic_auth: false,
                cookie_max_age: 172800,
            }),
    {
        AuthSettings { disable_cookie: false, enable_basic_auth: false, cookie_max_age: 172800 }
    }
}

/// The challenges an unauthorized answer carries in `WWW-Authenticate`:
/// bearer always, basic when accepted, cookie unless disabled.
pub fn auth_challenges(enable_basic_auth: bool, disable_cookie: bool) -> (r: Vec<&'static str>)
    ensures
        r@ == seq![WWW_AUTH_BEARER] + (if enable_basic_auth {
            seq![WWW_AUTH_BASIC]
        } else {
            Seq::<&'static str>::empty()
        }) + (if !disable_cookie {
            seq![WWW_AUTH_COOKIE]
        } else {
            Seq::<&'static str>::empty()
        }),
{
    let mut r: Vec<&'static str> = Vec::new();
    r.push(WWW_AUTH_BEARER);
    if enable_basic_auth {
        r.push(WWW_AUTH_BASIC);
    }
    if !disable_cookie {
        r.push(WWW_AUTH_COOKIE);
    }
    assert(r@ =~= seq![WWW_AUTH_BEARER] + (if enable_basic_auth {
        seq![WWW_AUTH_BASIC]
    } else {
        Seq::<&'static str>::empty()
    }) + (if !disable_cookie {
        seq![WWW_AUTH_COOKIE]
    } else {
        Seq::<&'static str>::empty()
    }));
    r
}

/// The challenges an unauthorized answer carries, by the settings.
pub open spec fn challenges_of(enable_basic_auth: bool, disable_cookie: bool) -> Seq<&'static str> {
    seq![WWW_AUTH_BEARER] + (if enable_basic_auth {
        seq![WWW_AUTH_BASIC]
    } else {
        Seq::<&'static str>::empty()
    }) + (if !disable_cookie {
        seq![WWW_AUTH_COOKIE]
    } else {
        Seq::<&'static str>::empty()
    })
}

/// What becomes of `Basic` credentials after the backend's immediate check
/// of the user name and password.
#[derive(Debug)]
pub enum BasicCheck<U> {
    /// The immediate check accepted the user: no refreshed token.
    Accepted(U),
    /// The immediate check refused: the credentials go to the backend's
    /// store check.
    AskStore,
}

/// The next step for `Basic` credentials: a user the immediate check
/// accepted is authorized at once; otherwise the store is asked.
pub fn after_basic_check<U>(immediate: Result<U, String>) -> (r: BasicCheck<U>)
    ensures
        (match immediate {
            Ok(u) => r == BasicCheck::Accepted(u),
            Err(_) => r is AskStore,
        }),
{
    match immediate {
        Ok(u) => BasicCheck::Accepted(u),
        Err(_) => BasicCheck::AskStore,
    }
}

/// The HTTP status of the answer to a request that is not authorized.
pub const UNAUTHORIZED_STATUS: u16 = 401;

/// The answer to a request that is not authorized (no credential found, or
/// one the backend refused): its status, and its `WWW-Authenticate`
/// challenges, in order. Its body is empty.
#[derive(Debug)]
pub struct Refusal {
    pub status: u16,
    pub challenges: Vec<&'static str>,
}

/// The answer to an unauthorized request under the settings: status 401
/// with the challenges of the schemes the settings accept.
pub fn refusal(settings: AuthSettings) -> (r: Refusal)
    ensures
        r.status == UNAUTHORIZED_STATUS,
        r.challenges@ == challenges_of(settings.enable_basic_auth, settings.disable_cookie),
{
    let challenges = auth_challenges(settings.enable_basic_auth, settings.disable_cookie);
    Refusal { status: UNAUTHORIZED_STATUS, challenges }
}

/// The bytes that the standard base64 engine (`base64::prelude::BASE64_STANDARD`,
/// padded alphabet `A-Z a-z 0-9 + /`) decodes from a text, when it accepts it.
pub uninterp spec fn base64_standard_decoded(text: Seq<char>) -> Option<Seq<u8>>;

#[verifier::external_type_specification]
#[verifier::external_body]
pub struct ExDecodeError(base64::DecodeError);

#[verifier::external_type_specification]
#[verifier::external_body]
pub struct ExFromUtf8Error(std::string::FromUtf8Error);

/// Calls `base64::Engine::decode` on the standard engine. The contract ties the
/// outcome to the name `base64_standard_decoded` of the text: accepted exactly
/// when the name has a value, and then those bytes.
#[verifier::external_body]
fn base64_decode(text: &str) -> (r: Result<Vec<u8>, base64::DecodeError>)
    ensures
        r is Ok <==> base64_standard_decoded(text@) is Some,
        r matches Ok(v) ==> base64_standard_decoded(text@) == Some(v@),
{
    base64::Engine::decode(&base64::prelude::BASE64_STANDARD, text)
}

/// Calls `String::from_utf8`: it accepts exactly the valid UTF-8 byte
/// sequences and gives the characters they encode.
#[verifier::external_body]
fn string_from_utf8(bytes: Vec<u8>) -> (r: Result<String, std::string::FromUtf8Error>)
    ensures
        r is Ok <==> valid_utf8(bytes@),
        r matches Ok(s) ==> s@ == decode_utf8(bytes@),
{
    String::from_utf8(bytes)
}

/// The text that a base64 credential decodes to, when it is base64 of UTF-8.
pub open spec fn decoded_text(token: Seq<char>) -> Option<Seq<char>> {
    match base64_standard_decoded(token) {
        Some(b) => if valid_utf8(b) {
            Some(decode_utf8(b))
        } else {
            None
        },
        None => None,
    }
}

/// Decodes a base64 credential to text.
fn decode_credential(token: &str) -> (r: Option<String>)
    ensures
        r matches Some(s) ==> decoded_text(token@) == Some(s@),
        r is None ==> decoded_text(token@) is None,
{
    match base64_decode(token) {
        Ok(bytes) => match string_from_utf8(bytes) {
            Ok(s) => Some(s),
            Err(_) => None,
        },
        Err(_) => None,
    }
}

/// Why a `Basic` credential was refused.
#[derive(Clone, Copy, Debug, PartialEq, Eq, Structural)]
pub enum BasicCredentialError {
    /// The credential is not base64 of UTF-8 text.
    Unparsable,
    /// The decoded text has no `:` before a password.
    MissingPassword,
}

impl BasicCredentialError {
    /// The reason given when the credential is refused.
    pub fn message(&self) -> (r: &'static str)
        ensures
            r == (match self {
                BasicCredentialError::Unparsable =>
                    "authorization failed! cannot parse `Basic` credential",
                BasicCredentialError::MissingPassword =>
                    "authorization failed! cannot found `password` in Basic",
            }),
    {
        match self {
            BasicCredentialError::Unparsable =>
                "authorization failed! cannot parse `Basic` credential",
            BasicCredentialError::MissingPassword =>
                "authorization failed! cannot found `password` in Basic",
        }
    }
}

/// The user name and password of a `Basic` credential: the first two
/// `:`-separated pieces of its decoded text (further pieces are ignored).
pub open spec fn basic_credentials(token: Seq<char>) -> Result<(Seq<char>, Seq<char>), BasicCredentialError> {
    match decoded_text(token) {
        None => Err(BasicCredentialError::Unparsable),
        Some(t) => {
            let parts = split_char(t, ':');
            if parts.len() < 2 {
                Err(BasicCredentialError::MissingPassword)
            } else {
                Ok((parts[0], parts[1]))
            }
        },
    }
}

proof fn lemma_space_then_plain(t: Seq<char>)
    requires
        t.len() == 0 || (!is_whitespace(t[0]) && !is_whitespace(t.last())),
    ensures
        trim(seq![' '] + t) == t,
        !starts_with(seq![' '] + t, bearer_word()),
        !starts_with(seq![' '] + t, basic_word()),
{
    let s = seq![' '] + t;
    assert(s[0] == ' ');
    assert(is_whitespace(' '));
    assert(s.drop_first() =~= t);
    assert(crate::text::trim_start(s) == crate::text::trim_start(t));
    crate::text::lemma_trim_plain(t);
    assert(crate::text::trim_start(t) == t);
    if starts_with(s, bearer_word()) {
        assert(s.take(6)[0] == bearer_word()[0]);
    }
    if starts_with(s, basic_word()) {
        assert(s.take(5)[0] == basic_word()[0]);
    }
}

/// The header value `Bearer <t>`, for any token `t` without surrounding
/// whitespace, is the bearer credential `t`, whole (whatever it holds, such
/// as the dots of a json web token), whether `Basic` is accepted or not.
pub proof fn lemma_bearer_header_token(t: Seq<char>, enable_basic_auth: bool)
    requires
        t.len() == 0 || (!is_whitespace(t[0]) && !is_whitespace(t.last())),
    ensures
        header_token(bearer_prefix() + t, enable_basic_auth) == Some((AuthScheme::Bearer, t)),
{
    let h = bearer_prefix() + t;
    lemma_space_then_plain(t);
    assert(h.take(6) =~= bearer_word());
    assert(h.skip(6) =~= seq![' '] + t);
    assert(starts_with(h, bearer_word()));
    assert(trim_start_matches(seq![' '] + t, bearer_word()) == seq![' '] + t);
    assert(trim_start_matches(h, bearer_word()) == seq![' '] + t);
    assert(trim_start_matches(seq![' '] + t, basic_word()) == seq![' '] + t);
}

/// The header value `Basic <t>`, for any credential `t` without surrounding
/// whitespace, is the basic credential `t`, whole, when `Basic` is accepted,
/// and no credential otherwise.
pub proof fn lemma_basic_header_token(t: Seq<char>, enable_basic_auth: bool)
    requires
        t.len() == 0 || (!is_whitespace(t[0]) && !is_whitespace(t.last())),
    ensures
        header_token(basic_prefix() + t, enable_basic_auth) == (if enable_basic_auth {
            Some((AuthScheme::Basic, t))
        } else {
            None
        }),
{
    let h = basic_prefix() + t;
    lemma_space_then_plain(t);
    assert(h.take(5) =~= basic_word());
    assert(h.skip(5) =~= seq![' '] + t);
    assert(starts_with(h, basic_word()));
    assert(!starts_with(h, bearer_word())) by {
        if starts_with(h, bearer_word()) {
            assert(h.take(6)[1] == bearer_word()[1]);
        }
    }
    assert(trim_start_matches(h, bearer_word()) == h);
    assert(trim_start_matches(seq![' '] + t, basic_word()) == seq![' '] + t);
    assert(trim_start_matches(h, basic_word()) == seq![' '] + t);
}

/// A `Cookie` header value that is just `x-token=<t>`, for a token `t`
/// without surrounding whitespace or `;`, carries the token `t`, whole.
pub proof fn lemma_cookie_token_whole(t: Seq<char>)
    requires
        t.len() == 0 || (!is_whitespace(t[0]) && !is_whitespace(t.last())),
        !t.contains(';'),
    ensures
        cookie_token(cookie_word() + seq!['='] + t) == Some(t),
{
    let h = cookie_word() + seq!['='] + t;
    assert(!h.contains(';')) by {
        if h.contains(';') {
            let k = choose|k: int| 0 <= k < h.len() && h[k] == ';';
            if k >= 8 {
                assert(t[k - 8] == ';');
            }
        }
    }
    crate::text::lemma_split_free(h, ';');
    let rest = seq!['='] + t;
    assert(!is_whitespace(h[0]));
    assert(h.len() > 0 && !is_whitespace(h.last())) by {
        if t.len() == 0 {
            assert(h.last() == '=');
        } else {
            assert(h.last() == t.last());
        }
    }
    crate::text::lemma_trim_plain(h);
    assert(h.take(7) =~= cookie_word());
    assert(starts_with(h, cookie_word()));
    let pieces = split_char(h, ';');
    assert(pieces.drop_last() =~= Seq::<Seq<char>>::empty());
    assert(last_auth_cookie(pieces) == Some(h));
    assert(h.skip(7) =~= rest);
    assert(rest.len() > 0 && !is_whitespace(rest.last())) by {
        if t.len() == 0 {
            assert(rest.last() == '=');
        } else {
            assert(rest.last() == t.last());
        }
    }
    assert(!is_whitespace(rest[0]));
    crate::text::lemma_trim_plain(rest);
    assert(rest.drop_first() =~= t);
    crate::text::lemma_trim_plain(t);
}

/// A `Basic` credential that decodes to `u:p` (neither holding a `:`)
/// names the user `u` with the password `p`: the user name is the text
/// before the colon, the password the text after it.
pub proof fn lemma_basic_credentials_user_then_password(token: Seq<char>, u: Seq<char>, p: Seq<char>)
    requires
        decoded_text(token) == Some(u + seq![':'] + p),
        !u.contains(':'),
        !p.contains(':'),
    ensures
        basic_credentials(token) == Ok::<(Seq<char>, Seq<char>), BasicCredentialError>((u, p)),
{
    lemma_split_two(u, p, ':');
}

/// The header value `Basic <token>`, where the token decodes to `u:p`
/// (neither holding a `:`), has no surrounding whitespace and does not start
/// with `Basic ` again, gives the user `u` and the password `p`.
pub proof fn lemma_basic_pair_user_then_password(token: Seq<char>, u: Seq<char>, p: Seq<char>)
    requires
        decoded_text(token) == Some(u + seq![':'] + p),
        !u.contains(':'),
        !p.contains(':'),
        token.len() == 0 || (!is_whitespace(token[0]) && !is_whitespace(token.last())),
        !starts_with(token, basic_prefix()),
    ensures
        basic_pair(basic_prefix() + token) == Some((u, p)),
{
    lemma_split_two(u, p, ':');
    lemma_strip_scheme_word(basic_prefix(), token);
}

/// A header value made of a scheme prefix and then `t`, where `t` does not
/// start with the prefix again and has no surrounding whitespace: stripping
/// every leading prefix and then whitespace gives `t`.
proof fn lemma_strip_scheme_word(prefix: Seq<char>, t: Seq<char>)
    requires
        prefix.len() > 0,
        !starts_with(t, prefix),
        t.len() == 0 || (!is_whitespace(t[0]) && !is_whitespace(t.last())),
    ensures
        trim(trim_start_matches(prefix + t, prefix)) == t,
{
    let s = prefix + t;
    assert(s.take(prefix.len() as int) =~= prefix);
    assert(s.skip(prefix.len() as int) =~= t);
    assert(trim_start_matches(t, prefix) == t);
    crate::text::lemma_trim_plain(t);
}

/// What a credential asks the authentication backend for.
#[derive(Debug)]
pub enum AuthRequest {
    /// Check a bearer token (from the header or the cookie).
    Bearer(String),
    /// Check a user name and password.
    Basic(String, String),
    /// Refuse at once, with the reason.
    Reject(BasicCredentialError),
}

/// The view of an authentication request.
pub open spec fn auth_request_view(r: AuthRequest) -> Result<(Seq<char>, Option<Seq<char>>), BasicCredentialError> {
    match r {
        AuthRequest::Bearer(t) => Ok((t@, None)),
        AuthRequest::Basic(u, p) => Ok((u@, Some(p@))),
        AuthRequest::Reject(e) => Err(e),
    }
}

/// What a credential asks of the backend: a bearer or cookie token is checked
/// as a bearer token; a `Basic` one is decoded into a user name and password,
/// or refused when it cannot be.
pub fn auth_token(scheme: AuthScheme, token: &str) -> (r: AuthRequest)
    ensures
        scheme != AuthScheme::Basic ==> (r matches AuthRequest::Bearer(t) && t@ == token@),
        scheme == AuthScheme::Basic ==> auth_request_view(r) == (match basic_credentials(token@) {
            Ok((u, p)) => Ok((u, Some(p))),
            Err(e) => Err(e),
        }),
{
    match scheme {
        AuthScheme::Bearer => AuthRequest::Bearer(token.to_string()),
        AuthScheme::Cookie => AuthRequest::Bearer(token.to_string()),
        AuthScheme::Basic => {
            let text = match decode_credential(token) {
                Some(t) => t,
                None => return AuthRequest::Reject(BasicCredentialError::Unparsable),
            };
            let chars = str_chars(text.as_str());
            let parts = split_chars(chars.as_slice(), ':');
            if parts.len() < 2 {
                return AuthRequest::Reject(BasicCredentialError::MissingPassword);
            }
            AuthRequest::Basic(
                string_from_chars(parts[0].as_slice()),
                string_from_chars(parts[1].as_slice()),
            )
        },
    }
}

/// `Bearer ` (with the space).
pub open spec fn bearer_prefix() -> Seq<char> {
    seq!['B', 'e', 'a', 'r', 'e', 'r', ' ']
}

/// `Basic ` (with the space).
pub open spec fn basic_prefix() -> Seq<char> {
    seq!['B', 'a', 's', 'i', 'c', ' ']
}

fn bearer_prefix_chars() -> (r: Vec<char>)
    ensures
        r@ == bearer_prefix(),
{
    let r = vec!['B', 'e', 'a', 'r', 'e', 'r', ' '];
    assert(r@ =~= bearer_prefix());
    r
}

fn basic_prefix_chars() -> (r: Vec<char>)
    ensures
        r@ == basic_prefix(),
{
    let r = vec!['B', 'a', 's', 'i', 'c', ' '];
    assert(r@ =~= basic_prefix());
    r
}

/// The bearer token in a header value: every leading `Bearer ` removed, then
/// surrounding whitespace.
pub fn scan_bearer(header: Option<&str>) -> (r: Option<String>)
    ensures
        r is Some <==> header is Some,
        r matches Some(t) ==> t@ == trim(trim_start_matches(header->Some_0@, bearer_prefix())),
{
    match header {
        None => None,
        Some(h) => {
            let hv = str_chars(h);
            let p = bearer_prefix_chars();
            let a = trim_start_matches_chars(hv.as_slice(), p.as_slice());
            let t = trim_chars(a.as_slice());
            Some(string_from_chars(t.as_slice()))
        },
    }
}

/// The user name and password in a `Basic` header value: every leading
/// `Basic ` and surrounding whitespace removed, the rest decoded from base64
/// as UTF-8 text, which must hold exactly one `:`.
pub open spec fn basic_pair(h: Seq<char>) -> Option<(Seq<char>, Seq<char>)> {
    match decoded_text(trim(trim_start_matches(h, basic_prefix()))) {
        None => None,
        Some(t) => {
            let parts = split_char(t, ':');
            if parts.len() == 2 {
                Some((parts[0], parts[1]))
            } else {
                None
            }
        },
    }
}

/// The two items, when there are exactly two.
pub fn expect_two<T>(items: Vec<T>) -> (r: Option<(T, T)>)
    ensures
        r is Some <==> items@.len() == 2,
        r matches Some((a, b)) ==> a == items@[0] && b == items@[1],
{
    let mut items = items;
    if items.len() != 2 {
        return None;
    }
    let b = items.pop().unwrap();
    let a = items.pop().unwrap();
    Some((a, b))
}

/// The user name and password of a `Basic` header value.
pub fn scan_basic(header: Option<&str>) -> (r: Option<(String, String)>)
    ensures
        header is None ==> r is None,
        header matches Some(h) ==> (match r {
            Some((n, p)) => basic_pair(h@) == Some((n@, p@)),
            None => basic_pair(h@) is None,
        }),
{
    let h = match header {
        None => return None,
        Some(h) => h,
    };
    let hv = str_chars(h);
    let p = basic_prefix_chars();
    let a = trim_start_matches_chars(hv.as_slice(), p.as_slice());
    let t = trim_chars(a.as_slice());
    let ts = string_from_chars(t.as_slice());
    let text = match decode_credential(ts.as_str()) {
        Some(x) => x,
        None => return None,
    };
    let chars = str_chars(text.as_str());
    let parts = split_chars(chars.as_slice(), ':');
    let mut names: Vec<String> = Vec::new();
    let mut i: usize = 0;
    while i < parts.len()
        invariant
            i <= parts@.len(),
            names@.len() == i,
            forall|k: int| 0 <= k < i ==> #[trigger] names@[k]@ == parts@[k]@,
        decreases parts@.len() - i,
    {
        names.push(string_from_chars(parts[i].as_slice()));
        i = i + 1;
    }
    match expect_two(names) {
        Some((n, pw)) => Some((n, pw)),
        None => None,
    }
}

} // verus!
