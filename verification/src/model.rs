//! The top-level entities: the generic answer, user ids, and the claims of
//! a json web token.
use crate::decimal::{decimal, format_u64, parse_u64, parse_u64_chars, IntErrorKind};
use crate::id::uuid_hyphenated;
use crate::text::{str_chars, string_from_chars};
use vstd::arithmetic::power2::pow2;
use vstd::prelude::*;

verus! {

/// A generic answer: a code, a message and optional data.
#[derive(Debug)]
pub struct Resp<Data> {
    pub code: usize,
    pub msg: String,
    pub data: Option<Data>,
}

impl Default for Resp<()> {
    fn default() -> (r: Self)
        ensures
            r.code == 0,
            r.msg@ == Seq::<char>::empty(),
            r.data is None,
    {
        Resp { code: 0, msg: String::new(), data: None }
    }
}

/// The id of a user: text or a number.
#[derive(Debug)]
pub enum UserId {
    UserIdStr(String),
    UserIdU64(u64),
}

impl UserId {
    /// The text of the id: the string itself, or the decimal form of the number.
    pub open spec fn text(&self) -> Seq<char> {
        match self {
            UserId::UserIdStr(s) => s@,
            UserId::UserIdU64(n) => decimal(*n as nat),
        }
    }

    /// The text of the id.
    pub fn as_string(&self) -> (r: String)
        ensures
            r@ == self.text(),
    {
        match self {
            UserId::UserIdStr(id) => id.clone(),
            UserId::UserIdU64(id) => {
                let v = format_u64(*id);
                string_from_chars(v.as_slice())
            },
        }
    }

    /// The id as a number: a numeric id as it is, a textual id parsed as a `u64`.
    pub fn as_u64(&self) -> (r: Result<u64, IntErrorKind>)
        ensures
            r == (match self {
                UserId::UserIdStr(s) => parse_u64(s@),
                UserId::UserIdU64(n) => Ok(*n),
            }),
    {
        match self {
            UserId::UserIdStr(id) => {
                let v = str_chars(id.as_str());
                parse_u64_chars(v.as_slice())
            },
            UserId::UserIdU64(id) => Ok(*id),
        }
    }
}

impl Default for UserId {
    fn default() -> (r: Self)
        ensures
            r matches UserId::UserIdU64(n) && n == 0,
    {
        UserId::UserIdU64(0)
    }
}

impl Clone for UserId {
    fn clone(&self) -> (r: Self)
        ensures
            r.same(self),
    {
        match self {
            UserId::UserIdStr(s) => UserId::UserIdStr(s.clone()),
            UserId::UserIdU64(n) => UserId::UserIdU64(*n),
        }
    }
}

impl UserId {
    /// Two ids are the same kind of id with the same content.
    pub open spec fn same(&self, other: &UserId) -> bool {
        match (self, other) {
            (UserId::UserIdStr(a), UserId::UserIdStr(b)) => a@ == b@,
            (UserId::UserIdU64(a), UserId::UserIdU64(b)) => *a == *b,
            _ => false,
        }
    }
}

impl PartialEq for UserId {
    fn eq(&self, other: &Self) -> (r: bool) {
        match (self, other) {
            (UserId::UserIdStr(a), UserId::UserIdStr(b)) => a.eq(b),
            (UserId::UserIdU64(a), UserId::UserIdU64(b)) => *a == *b,
            _ => false,
        }
    }
}

impl vstd::std_specs::cmp::PartialEqSpecImpl for UserId {
    open spec fn obeys_eq_spec() -> bool {
        true
    }

    open spec fn eq_spec(&self, other: &Self) -> bool {
        self.same(other)
    }
}

impl Eq for UserId {}

impl From<u64> for UserId {
    fn from(id: u64) -> (r: Self) {
        UserId::UserIdU64(id)
    }
}

impl vstd::std_specs::convert::FromSpecImpl<u64> for UserId {
    open spec fn obeys_from_spec() -> bool {
        true
    }

    open spec fn from_spec(id: u64) -> Self {
        UserId::UserIdU64(id)
    }
}

/// A textual user id.
pub fn user_id_from_str(id: &'static str) -> (r: UserId)
    ensures
        r matches UserId::UserIdStr(s) && s@ == id@,
{
    UserId::UserIdStr(id.to_string())
}

impl std::str::FromStr for UserId {
    type Err = ();

    /// A textual id read from a text; any text is accepted.
    fn from_str(s: &str) -> (r: Result<UserId, ()>)
        ensures
            r matches Ok(UserId::UserIdStr(t)) && t@ == s@,
    {
        Ok(UserId::UserIdStr(s.to_string()))
    }
}

/// Reading the number back from the text of a numeric user id gives the number.
pub proof fn lemma_user_id_text_round_trip(n: u64, s: String)
    requires
        s@ == UserId::UserIdU64(n).text(),
    ensures
        UserId::UserIdStr(s).text() == UserId::UserIdU64(n).text(),
        parse_u64(s@) == Ok::<u64, IntErrorKind>(n),
{
    crate::decimal::lemma_parse_decimal(n);
}

/// `true` exactly when the value is zero; used to leave zero timestamps out of a claim.
pub fn eq_zero(i: &usize) -> (r: bool)
    ensures
        r == (*i == 0),
{
    *i == 0
}

/// The claims of a json web token.
#[derive(Debug)]
pub struct AuthClaim<T> {
    /// Expiration time (as UTC timestamp).
    pub exp: usize,
    /// Audience.
    pub aud: String,
    /// Issued at (as UTC timestamp).
    pub iat: usize,
    /// Not before (as UTC timestamp).
    pub nbf: usize,
    /// Issuer.
    pub iss: String,
    /// Subject (whom the token refers to).
    pub sub: String,
    /// Id of a token that may be used only once.
    pub jti: String,
    /// Other claims.
    pub payload: Option<T>,
}

impl<T> AuthClaim<T> {
    /// The claims other than `exp` and the payload are all unset (empty or zero).
    pub open spec fn unset_but_exp(&self) -> bool {
        &&& self.aud@ == Seq::<char>::empty()
        &&& self.iat == 0
        &&& self.nbf == 0
        &&& self.iss@ == Seq::<char>::empty()
        &&& self.sub@ == Seq::<char>::empty()
        &&& self.jti@ == Seq::<char>::empty()
    }

    /// The claims agree on everything but the texts, which only need equal views.
    pub open spec fn same_claims(&self, other: &Self) -> bool {
        &&& self.exp == other.exp
        &&& self.aud@ == other.aud@
        &&& self.iat == other.iat
        &&& self.nbf == other.nbf
        &&& self.iss@ == other.iss@
        &&& self.sub@ == other.sub@
        &&& self.jti@ == other.jti@
        &&& self.payload == other.payload
    }

    /// Claims that expire at `exp` and say nothing else.
    pub fn new(exp: usize) -> (r: Self)
        ensures
            r.exp == exp,
            r.unset_but_exp(),
            r.payload is None,
    {
        AuthClaim {
            exp,
            aud: String::new(),
            iat: 0,
            nbf: 0,
            iss: String::new(),
            sub: String::new(),
            jti: String::new(),
            payload: None,
        }
    }

    /// Claims that expire at `exp` and carry the payload.
    pub fn new_with_payload(exp: usize, payload: T) -> (r: Self)
        ensures
            r.exp == exp,
            r.unset_but_exp(),
            r.payload == Some(payload),
    {
        AuthClaim {
            exp,
            aud: String::new(),
            iat: 0,
            nbf: 0,
            iss: String::new(),
            sub: String::new(),
            jti: String::new(),
            payload: Some(payload),
        }
    }

    /// Sets the issuer.
    pub fn issuer(&mut self, iss: &str) -> (r: &mut Self)
        ensures
            r.iss@ == iss@,
            r.same_claims(&AuthClaim { iss: r.iss, ..*old(self) }),
            *final(self) == *final(r),
    {
        self.iss = iss.to_string();
        self
    }

    /// Sets the subject.
    pub fn subject(&mut self, sub: &str) -> (r: &mut Self)
        ensures
            r.sub@ == sub@,
            r.same_claims(&AuthClaim { sub: r.sub, ..*old(self) }),
            *final(self) == *final(r),
    {
        self.sub = sub.to_string();
        self
    }

    /// Sets the audience.
    pub fn audience(&mut self, aud: &str) -> (r: &mut Self)
        ensures
            r.aud@ == aud@,
            r.same_claims(&AuthClaim { aud: r.aud, ..*old(self) }),
            *final(self) == *final(r),
    {
        self.aud = aud.to_string();
        self
    }

    /// Sets the time before which the token is not valid.
    pub fn not_before(&mut self, nbf: usize) -> (r: &mut Self)
        ensures
            *r == (AuthClaim { nbf, ..*old(self) }),
            *final(self) == *final(r),
    {
        self.nbf = nbf;
        self
    }

    /// Sets the time the token was issued at.
    pub fn issue_at(&mut self, iat: usize) -> (r: &mut Self)
        ensures
            *r == (AuthClaim { iat, ..*old(self) }),
            *final(self) == *final(r),
    {
        self.iat = iat;
        self
    }

    /// Sets the payload.
    pub fn payload(&mut self, payload: T) -> (r: &mut Self)
        ensures
            *r == (AuthClaim { payload: Some(payload), ..*old(self) }),
            *final(self) == *final(r),
    {
        self.payload = Some(payload);
        self
    }

    /// Sets the id of a token that may be used only once.
    pub fn jti(&mut self, jti: &str) -> (r: &mut Self)
        ensures
            r.jti@ == jti@,
            r.same_claims(&AuthClaim { jti: r.jti, ..*old(self) }),
            *final(self) == *final(r),
    {
        self.jti = jti.to_string();
        self
    }

    /// Sets a new random id (a version-4 UUID in hyphenated form) as the id of
    /// a token that may be used only once.
    pub fn uuid_jti(&mut self) -> (r: &mut Self)
        ensures
            exists|v: u128|
                r.jti@ == uuid_hyphenated(v) && (v as int / pow2(76) as int) % 16 == 4 && (v as int
                    / pow2(62) as int) % 4 == 2,
            r.same_claims(&AuthClaim { jti: r.jti, ..*old(self) }),
            *final(self) == *final(r),
    {
        let u: crate::id::UUID<()> = crate::id::UUID::new();
        self.jti = u.to_string();
        self
    }
}

} // verus!
