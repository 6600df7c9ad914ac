//! Cookies of authentication: reading the cookies of a request, the
//! `SameSite` setting and its names, the cookie settings, and the
//! `Set-Cookie` value that hands out a refreshed token.
use crate::auth::{cookie_word, AUTH_COOKIE};
use crate::decimal::decimal;
use crate::id::chars_equal;
use crate::text::{split_char, split_chars, str_chars, string_from_chars, trim, trim_chars};
use vstd::prelude::*;

verus! {

/// The name and value that `cookie::Cookie::parse_encoded` reads (percent-decoded)
/// from one cookie text, when it accepts it.
pub uninterp spec fn parsed_cookie(text: Seq<char>) -> Option<(Seq<char>, Seq<char>)>;

/// Calls `cookie::Cookie::parse_encoded` and gives the parsed cookie's name and
/// value. The contract ties the outcome to the name `parsed_cookie` of the text.
#[verifier::external_body]
fn parse_cookie_encoded(text: &str) -> (r: Option<(String, String)>)
    ensures
        r is Some <==> parsed_cookie(text@) is Some,
        r matches Some((n, v)) ==> parsed_cookie(text@) == Some((n@, v@)),
{
    match cookie::Cookie::parse_encoded(text) {
        Ok(c) => Some((c.name().to_string(), c.value().to_string())),
        Err(_) => None,
    }
}

/// The cookies of a `Cookie` header value, by name: each `;`-separated piece
/// is trimmed and parsed; a piece that does not parse is skipped, and a later
/// cookie replaces an earlier one of the same name.
pub open spec fn cookie_jar(pieces: Seq<Seq<char>>) -> Map<Seq<char>, Seq<char>>
    decreases pieces.len(),
{
    if pieces.len() == 0 {
        Map::empty()
    } else {
        let prev = cookie_jar(pieces.drop_last());
        match parsed_cookie(trim(pieces.last())) {
            Some((n, v)) => prev.insert(n, v),
            None => prev,
        }
    }
}

#[verifier::external_type_specification]
#[verifier::external_body]
pub struct ExCookieJar(cookie::CookieJar);

/// The original cookies of a jar (those a request came with), by name.
pub uninterp spec fn jar_originals(jar: cookie::CookieJar) -> Map<Seq<char>, Seq<char>>;

/// The changes made to a jar since it was filled, by name: the value of an
/// added cookie, or `None` for a removed one.
pub uninterp spec fn jar_changes(jar: cookie::CookieJar) -> Map<Seq<char>, Option<Seq<char>>>;

/// The value of the cookie named `name` in a jar: a change wins over an
/// original, and a removed cookie has none.
pub open spec fn jar_value(jar: cookie::CookieJar, name: Seq<char>) -> Option<Seq<char>> {
    if jar_changes(jar).contains_key(name) {
        jar_changes(jar)[name]
    } else if jar_originals(jar).contains_key(name) {
        Some(jar_originals(jar)[name])
    } else {
        None
    }
}

/// No cookies.
pub open spec fn no_cookies() -> Map<Seq<char>, Seq<char>> {
    Map::empty()
}

/// No changes.
pub open spec fn no_changes() -> Map<Seq<char>, Option<Seq<char>>> {
    Map::empty()
}

/// Calls `cookie::CookieJar::new`: a jar with no cookies and no changes.
#[verifier::external_body]
fn jar_new() -> (r: cookie::CookieJar)
    ensures
        jar_originals(r) == no_cookies(),
        jar_changes(r) == no_changes(),
{
    cookie::CookieJar::new()
}

/// Calls `cookie::CookieJar::add_original` with a cookie of the name and
/// value: it replaces any original cookie of that name (originals are kept
/// in a set keyed by name) and leaves the changes as they were.
#[verifier::external_body]
fn jar_add_original(jar: &mut cookie::CookieJar, name: String, value: String)
    ensures
        jar_originals(*final(jar)) == jar_originals(*old(jar)).insert(name@, value@),
        jar_changes(*final(jar)) == jar_changes(*old(jar)),
{
    jar.add_original(cookie::Cookie::new(name, value))
}

/// Calls `cookie::CookieJar::get` and gives the value of the cookie found:
/// it looks among the changes first, then among the originals, and a
/// removed cookie is not found.
#[verifier::external_body]
fn jar_get(jar: &cookie::CookieJar, name: &str) -> (r: Option<String>)
    ensures
        r matches Some(v) ==> jar_value(*jar, name@) == Some(v@),
        r is None ==> jar_value(*jar, name@) is None,
{
    jar.get(name).map(|c| c.value().to_string())
}

/// The cookies of a request, by name, in a jar with no changes, from its
/// `Cookie` header value (absent when the request has none or it is not
/// visible ASCII text).
pub fn scan_cookies(header: Option<&str>) -> (r: cookie::CookieJar)
    ensures
        jar_changes(r) == no_changes(),
        header is None ==> jar_originals(r) == no_cookies(),
        header matches Some(h) ==> jar_originals(r) == cookie_jar(split_char(h@, ';')),
{
    let mut jar = jar_new();
    let h = match header {
        None => return jar,
        Some(h) => h,
    };
    let hv = str_chars(h);
    let pieces = split_chars(hv.as_slice(), ';');
    let ghost sp = split_char(h@, ';');
    let mut i: usize = 0;
    assert(sp.take(0) =~= Seq::<Seq<char>>::empty());
    while i < pieces.len()
        invariant
            i <= pieces@.len(),
            pieces@.len() == sp.len(),
            forall|k: int| 0 <= k < pieces@.len() ==> #[trigger] pieces@[k]@ == sp[k],
            jar_originals(jar) == cookie_jar(sp.take(i as int)),
            jar_changes(jar) == no_changes(),
        decreases pieces@.len() - i,
    {
        let ghost pre = sp.take(i + 1);
        proof {
            assert(pre.drop_last() =~= sp.take(i as int));
            assert(pre.last() == sp[i as int]);
        }
        let t = trim_chars(pieces[i].as_slice());
        let ts = string_from_chars(t.as_slice());
        match parse_cookie_encoded(ts.as_str()) {
            None => {},
            Some((name, value)) => {
                jar_add_original(&mut jar, name, value);
            },
        }
        i = i + 1;
    }
    assert(sp.take(sp.len() as int) =~= sp);
    jar
}

/// The value of the cookie named `name` in the jar, when it has one.
pub fn cookie_value(jar: &cookie::CookieJar, name: &str) -> (r: Option<String>)
    ensures
        r matches Some(v) ==> jar_value(*jar, name@) == Some(v@),
        r is None ==> jar_value(*jar, name@) is None,
{
    jar_get(jar, name)
}

/// When a cookie may be sent along with cross-site requests.
#[derive(Clone, Copy, Debug, PartialEq, Eq, Structural)]
pub enum SameSite {
    Strict,
    Lax,
    /// Written `None`: sent with cross-site requests too.
    NoRestriction,
}

impl SameSite {
    /// The setting `same_site`.
    pub fn new(same_site: SameSite) -> (r: SameSite)
        ensures
            r == same_site,
    {
        same_site
    }

    /// The lower-case name the setting is written with.
    pub fn name(&self) -> (r: &'static str)
        ensures
            r == same_site_name(*self),
    {
        match self {
            SameSite::Strict => "strict",
            SameSite::Lax => "lax",
            SameSite::NoRestriction => "none",
        }
    }

    /// The setting a name stands for: `None`/`none`, `Strict`/`strict`,
    /// `Lax`/`lax`; any other text means `None`.
    pub fn from_name(v: &str) -> (r: SameSite)
        ensures
            r == same_site_of(v@),
    {
        let c = str_chars(v);
        if chars_equal(c.as_slice(), vec!['S', 't', 'r', 'i', 'c', 't'].as_slice())
            || chars_equal(c.as_slice(), vec!['s', 't', 'r', 'i', 'c', 't'].as_slice()) {
            SameSite::Strict
        } else if chars_equal(c.as_slice(), vec!['L', 'a', 'x'].as_slice()) || chars_equal(
            c.as_slice(),
            vec!['l', 'a', 'x'].as_slice(),
        ) {
            SameSite::Lax
        } else {
            SameSite::NoRestriction
        }
    }
}

impl Default for SameSite {
    fn default() -> (r: SameSite)
        ensures
            r == SameSite::NoRestriction,
    {
        SameSite::NoRestriction
    }
}

/// The setting a name stands for.
pub open spec fn same_site_of(v: Seq<char>) -> SameSite {
    if v == seq!['S', 't', 'r', 'i', 'c', 't'] || v == seq!['s', 't', 'r', 'i', 'c', 't'] {
        SameSite::Strict
    } else if v == seq!['L', 'a', 'x'] || v == seq!['l', 'a', 'x'] {
        SameSite::Lax
    } else {
        SameSite::NoRestriction
    }
}

/// The lower-case name a setting is written with.
pub open spec fn same_site_name(s: SameSite) -> &'static str {
    match s {
        SameSite::Strict => "strict",
        SameSite::Lax => "lax",
        SameSite::NoRestriction => "none",
    }
}

/// Reading back the name a setting is written with gives the setting.
pub proof fn lemma_same_site_name_round_trip(s: SameSite)
    ensures
        same_site_of(same_site_name(s)@) == s,
{
    reveal_strlit("strict");
    reveal_strlit("lax");
    reveal_strlit("none");
    let strict = seq!['s', 't', 'r', 'i', 'c', 't'];
    let lax = seq!['l', 'a', 'x'];
    assert("strict"@ =~= strict);
    assert("lax"@ =~= lax);
    assert(strict != seq!['S', 't', 'r', 'i', 'c', 't']) by {
        assert(strict[0] != 'S');
    }
    assert(lax != seq!['L', 'a', 'x']) by {
        assert(lax[0] != 'L');
    }
    assert("none"@.len() == 4);
}

/// The default lifetime of the token cookie: two days, in seconds.
pub const DEFAULT_MAX_AGE: i64 = 172800;

/// The default name of the token cookie.
pub const DEFAULT_COOKIE_NAME: &'static str = "x-token";

/// The default path of the token cookie.
pub const DEFAULT_COOKIE_PATH: &'static str = "/";

/// The default domain of the token cookie (none).
pub const DEFAULT_COOKIE_DOMAIN: &'static str = "";

/// How the token cookie is written.
#[derive(Clone, Debug)]
pub struct CookieAuthConf {
    pub max_age: i64,
    pub http_only: bool,
    pub secure: bool,
    pub same_site: SameSite,
    pub path: String,
    pub domain: String,
    pub encrypted: Option<String>,
    pub cookie_name: String,
}

impl Default for CookieAuthConf {
    fn default() -> (r: Self)
        ensures
            r.max_age == DEFAULT_MAX_AGE,
            r.http_only,
            r.secure,
            r.same_site == SameSite::NoRestriction,
            r.path@ == DEFAULT_COOKIE_PATH@,
            r.domain@ == DEFAULT_COOKIE_DOMAIN@,
            r.encrypted is None,
            r.cookie_name@ == DEFAULT_COOKIE_NAME@,
    {
        CookieAuthConf {
            max_age: DEFAULT_MAX_AGE,
            http_only: true,
            secure: true,
            same_site: SameSite::NoRestriction,
            path: DEFAULT_COOKIE_PATH.to_string(),
            domain: DEFAULT_COOKIE_DOMAIN.to_string(),
            encrypted: None,
            cookie_name: DEFAULT_COOKIE_NAME.to_string(),
        }
    }
}

/// The decimal text of a signed number.
pub open spec fn signed_decimal(n: int) -> Seq<char> {
    if n < 0 {
        seq!['-'] + decimal((-n) as nat)
    } else {
        decimal(n as nat)
    }
}

/// The attributes of a refreshed token cookie, before its lifetime.
pub open spec fn auth_cookie_attributes() -> Seq<char> {
    "; HttpOnly; SameSite=None; Secure; Path=/; Max-Age="@
}

/// The `Set-Cookie` value that hands out a refreshed token: an `x-token`
/// cookie that is HTTP-only, sent cross-site only over secure connections,
/// valid for the whole site and for `max_age` seconds.
pub open spec fn auth_set_cookie_text(value: Seq<char>, max_age: i64) -> Seq<char> {
    cookie_word() + seq!['='] + value + auth_cookie_attributes() + signed_decimal(max_age as int)
}

/// The `SameSite` attribute a cookie is written with, when it has one.
pub open spec fn same_site_attribute(same_site: Option<SameSite>) -> Seq<char> {
    match same_site {
        None => Seq::empty(),
        Some(SameSite::Strict) => "; SameSite=Strict"@,
        Some(SameSite::Lax) => "; SameSite=Lax"@,
        Some(SameSite::NoRestriction) => "; SameSite=None"@,
    }
}

/// The text `cookie::Cookie`'s `Display` writes for a cookie with the name,
/// value and attributes given (its `Secure` attribute always set, to `secure`;
/// no domain or expiry): `name=value`, then `HttpOnly` when asked for,
/// `SameSite`, `Secure` when asked for, the path and the lifetime, in that
/// order.
pub open spec fn cookie_display_text(
    name: Seq<char>,
    value: Seq<char>,
    http_only: bool,
    same_site: Option<SameSite>,
    secure: bool,
    path: Seq<char>,
    max_age: i64,
) -> Seq<char> {
    name + "="@ + value + (if http_only {
        "; HttpOnly"@
    } else {
        Seq::empty()
    }) + same_site_attribute(same_site) + (if secure {
        "; Secure"@
    } else {
        Seq::empty()
    }) + "; Path="@ + path + "; Max-Age="@ + signed_decimal(max_age as int)
}

/// Makes a `cookie::Cookie` of the name and value, sets its `HttpOnly`,
/// `SameSite`, `Secure`, path and max age (`cookie::time::Duration::seconds`),
/// and writes it with its `Display` (`fmt_parameters` in the crate's source
/// gives the order of the attributes; with `Secure` set, `SameSite=None`
/// adds no second `Secure`).
#[verifier::external_body]
fn cookie_display(
    name: &str,
    value: &str,
    http_only: bool,
    same_site: Option<SameSite>,
    secure: bool,
    path: &str,
    max_age: i64,
) -> (r: String)
    ensures
        r@ == cookie_display_text(name@, value@, http_only, same_site, secure, path@, max_age),
{
    let mut c = cookie::Cookie::new(name.to_string(), value.to_string());
    c.set_http_only(http_only);
    c.set_same_site(match same_site {
        Some(SameSite::Strict) => Some(cookie::SameSite::Strict),
        Some(SameSite::Lax) => Some(cookie::SameSite::Lax),
        Some(SameSite::NoRestriction) => Some(cookie::SameSite::None),
        None => None,
    });
    c.set_secure(secure);
    c.set_path(path.to_string());
    c.set_max_age(cookie::time::Duration::seconds(max_age));
    c.to_string()
}

proof fn lemma_auth_cookie_text(value: Seq<char>, max_age: i64)
    ensures
        cookie_display_text(
            AUTH_COOKIE@,
            value,
            true,
            Some(SameSite::NoRestriction),
            true,
            "/"@,
            max_age,
        ) == auth_set_cookie_text(value, max_age),
{
    reveal_strlit("x-token");
    reveal_strlit("=");
    reveal_strlit("; HttpOnly");
    reveal_strlit("; SameSite=None");
    reveal_strlit("; Secure");
    reveal_strlit("; Path=");
    reveal_strlit("/");
    reveal_strlit("; Max-Age=");
    reveal_strlit("; HttpOnly; SameSite=None; Secure; Path=/; Max-Age=");
    assert(AUTH_COOKIE@ =~= cookie_word());
    assert("="@ =~= seq!['=']);
    assert("; HttpOnly"@ + "; SameSite=None"@ + "; Secure"@ + "; Path="@ + "/"@ + "; Max-Age="@
        =~= auth_cookie_attributes());
    let d = signed_decimal(max_age as int);
    assert(cookie_display_text(AUTH_COOKIE@, value, true, Some(SameSite::NoRestriction), true, "/"@, max_age)
        =~= cookie_word() + seq!['='] + value + auth_cookie_attributes() + d);
}

/// The `Set-Cookie` value to answer with after a successful authorization:
/// one that carries the refreshed token, when the backend handed one out and
/// cookies are enabled; none otherwise.
pub fn refresh_cookie(cookie_enabled: bool, refresh: Option<&str>, max_age: i64) -> (r: Option<
    String,
>)
    ensures
        r is Some <==> cookie_enabled && refresh is Some,
        r matches Some(c) ==> c@ == auth_set_cookie_text(refresh->Some_0@, max_age),
{
    if !cookie_enabled {
        return None;
    }
    match refresh {
        Some(v) => {
            proof {
                lemma_auth_cookie_text(v@, max_age);
            }
            Some(cookie_display(AUTH_COOKIE, v, true, Some(SameSite::NoRestriction), true, "/", max_age))
        },
        None => None,
    }
}

} // verus!
