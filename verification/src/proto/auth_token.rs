use crate::id::chars_equal;
use crate::proto::path_is;
use crate::text::str_chars;
use vstd::prelude::*;

verus! {

/// A token and its kind (the number of a `TokenKind`).
#[derive(Clone, Debug)]
pub struct Token {
    pub value: String,
    pub kind: i32,
}

/// What a token says of its holder.
#[derive(Clone, Debug)]
pub struct Payload {
    pub sub: String,
    pub group: String,
    pub extra: String,
}

#[derive(Clone, Debug)]
pub struct GenerateTokenReq {
    pub sub: String,
    pub aud: String,
    pub jti: Option<bool>,
    pub payload: Option<Payload>,
}

#[derive(Clone, Debug)]
pub struct GenerateTokenRes {
    pub access: Option<Token>,
    pub refresh: Option<Token>,
}

#[derive(Clone, Debug)]
pub struct ParseTokenReq {
    pub value: String,
}

#[derive(Clone, Debug)]
pub struct ParseTokenRes {
    pub checked: bool,
    pub expired: bool,
    pub kind: i32,
    pub payload: Option<Payload>,
}

#[derive(Clone, Debug)]
pub struct RefreshTokenReq {
    pub value: String,
}

#[derive(Clone, Debug)]
pub struct RefreshTokenRes {
    pub access: Option<Token>,
    pub refresh: Option<Token>,
}

#[derive(Clone, Debug)]
pub struct ClearCacheReq {
    pub sub: String,
}

#[derive(Clone, Copy, Debug, PartialEq, Eq, Structural)]
pub struct ClearCacheRes {}

/// The kind of a token.
#[derive(Clone, Copy, Debug, PartialEq, Eq, Structural)]
pub enum TokenKind {
    /// Number 0.
    Access,
    /// Number 1.
    Refresh,
}

/// The name of a kind in the protocol definition.
pub open spec fn token_kind_name(k: TokenKind) -> Seq<char> {
    match k {
        TokenKind::Access => seq!['A', 'C', 'C', 'E', 'S', 'S'],
        TokenKind::Refresh => seq!['R', 'E', 'F', 'R', 'E', 'S', 'H'],
    }
}

impl TokenKind {
    /// The name of the kind in the protocol definition.
    pub fn as_str_name(&self) -> (r: &'static str)
        ensures
            r@ == token_kind_name(*self),
    {
        match self {
            TokenKind::Access => {
                proof {
                    reveal_strlit("ACCESS");
                }
                "ACCESS"
            },
            TokenKind::Refresh => {
                proof {
                    reveal_strlit("REFRESH");
                }
                "REFRESH"
            },
        }
    }

    /// The kind a protocol name stands for.
    pub fn from_str_name(value: &str) -> (r: Option<TokenKind>)
        ensures
            r matches Some(k) ==> value@ == token_kind_name(k),
            r is None ==> value@ != token_kind_name(TokenKind::Access) && value@ != token_kind_name(
                TokenKind::Refresh,
            ),
    {
        let v = str_chars(value);
        let access = vec!['A', 'C', 'C', 'E', 'S', 'S'];
        let refresh = vec!['R', 'E', 'F', 'R', 'E', 'S', 'H'];
        assert(access@ =~= token_kind_name(TokenKind::Access));
        assert(refresh@ =~= token_kind_name(TokenKind::Refresh));
        if chars_equal(v.as_slice(), access.as_slice()) {
            Some(TokenKind::Access)
        } else if chars_equal(v.as_slice(), refresh.as_slice()) {
            Some(TokenKind::Refresh)
        } else {
            None
        }
    }

    /// The number of the kind.
    pub fn to_i32(&self) -> (r: i32)
        ensures
            r == (match self {
                TokenKind::Access => 0i32,
                TokenKind::Refresh => 1i32,
            }),
    {
        match self {
            TokenKind::Access => 0,
            TokenKind::Refresh => 1,
        }
    }

    /// The kind of a number, when a kind has it.
    pub fn from_i32(value: i32) -> (r: Option<TokenKind>)
        ensures
            r == (if value == 0 {
                Some(TokenKind::Access)
            } else if value == 1 {
                Some(TokenKind::Refresh)
            } else {
                None::<TokenKind>
            }),
    {
        if value == 0 {
            Some(TokenKind::Access)
        } else if value == 1 {
            Some(TokenKind::Refresh)
        } else {
            None
        }
    }
}

/// The names of the kinds differ, so a kind is read back from its name.
pub proof fn lemma_token_kind_name_round_trip(k: TokenKind, other: TokenKind)
    ensures
        token_kind_name(k) == token_kind_name(other) ==> k == other,
{
    if k != other {
        assert(token_kind_name(TokenKind::Access).len() != token_kind_name(TokenKind::Refresh).len());
    }
}

/// The methods of the token service.
#[derive(Clone, Copy, Debug, PartialEq, Eq, Structural)]
pub enum TokenServiceMethod {
    GenerateToken,
    ParseToken,
    RefreshToken,
    ClearCache,
}

/// The path a method is called at.
pub open spec fn token_method_path(m: TokenServiceMethod) -> &'static str {
    match m {
        TokenServiceMethod::GenerateToken => "/auth.token.v1.TokenService/GenerateToken",
        TokenServiceMethod::ParseToken => "/auth.token.v1.TokenService/ParseToken",
        TokenServiceMethod::RefreshToken => "/auth.token.v1.TokenService/RefreshToken",
        TokenServiceMethod::ClearCache => "/auth.token.v1.TokenService/ClearCache",
    }
}

/// Distinct methods are called at distinct paths (they differ in the first
/// letters of the method's name), so a method's path routes back to it.
pub proof fn lemma_token_paths_distinct()
    ensures
        forall|m1: TokenServiceMethod, m2: TokenServiceMethod|
            m1 != m2 ==> (#[trigger] token_method_path(m1))@ != (#[trigger] token_method_path(m2))@,
{
    assert forall|m1: TokenServiceMethod, m2: TokenServiceMethod| m1 != m2 implies (#[trigger] token_method_path(m1))@ != (#[trigger] token_method_path(m2))@ by {
        reveal_strlit("/auth.token.v1.TokenService/GenerateToken");
        reveal_strlit("/auth.token.v1.TokenService/ParseToken");
        reveal_strlit("/auth.token.v1.TokenService/RefreshToken");
        reveal_strlit("/auth.token.v1.TokenService/ClearCache");
        assert(token_method_path(m1)@[28] != token_method_path(m2)@[28]);
    }
}

/// Each method is called at `/`, the service's name, `/` and the method's
/// own name.
pub proof fn lemma_token_paths_named()
    ensures
        token_method_path(TokenServiceMethod::GenerateToken)@ == "/"@ + TOKEN_SERVICE_NAME@ + "/"@ + "GenerateToken"@,
        token_method_path(TokenServiceMethod::ParseToken)@ == "/"@ + TOKEN_SERVICE_NAME@ + "/"@ + "ParseToken"@,
        token_method_path(TokenServiceMethod::RefreshToken)@ == "/"@ + TOKEN_SERVICE_NAME@ + "/"@ + "RefreshToken"@,
        token_method_path(TokenServiceMethod::ClearCache)@ == "/"@ + TOKEN_SERVICE_NAME@ + "/"@ + "ClearCache"@,
{
    reveal_strlit("/auth.token.v1.TokenService/GenerateToken");
    reveal_strlit("/auth.token.v1.TokenService/ParseToken");
    reveal_strlit("/auth.token.v1.TokenService/RefreshToken");
    reveal_strlit("/auth.token.v1.TokenService/ClearCache");
    reveal_strlit("auth.token.v1.TokenService");
    reveal_strlit("/");
    reveal_strlit("GenerateToken");
    reveal_strlit("ParseToken");
    reveal_strlit("RefreshToken");
    reveal_strlit("ClearCache");
    assert(token_method_path(TokenServiceMethod::GenerateToken)@ =~= "/"@ + TOKEN_SERVICE_NAME@ + "/"@ + "GenerateToken"@);
    assert(token_method_path(TokenServiceMethod::ParseToken)@ =~= "/"@ + TOKEN_SERVICE_NAME@ + "/"@ + "ParseToken"@);
    assert(token_method_path(TokenServiceMethod::RefreshToken)@ =~= "/"@ + TOKEN_SERVICE_NAME@ + "/"@ + "RefreshToken"@);
    assert(token_method_path(TokenServiceMethod::ClearCache)@ =~= "/"@ + TOKEN_SERVICE_NAME@ + "/"@ + "ClearCache"@);
}

impl TokenServiceMethod {
    /// The path the method is called at.
    pub fn path(&self) -> (r: &'static str)
        ensures
            r == token_method_path(*self),
    {
        match self {
            TokenServiceMethod::GenerateToken => "/auth.token.v1.TokenService/GenerateToken",
            TokenServiceMethod::ParseToken => "/auth.token.v1.TokenService/ParseToken",
            TokenServiceMethod::RefreshToken => "/auth.token.v1.TokenService/RefreshToken",
            TokenServiceMethod::ClearCache => "/auth.token.v1.TokenService/ClearCache",
        }
    }

    /// The method called at a path, when the service serves it.
    pub fn route(path: &str) -> (r: Option<TokenServiceMethod>)
        ensures
            r matches Some(m) ==> path@ == token_method_path(m)@,
            r is None ==> forall|m: TokenServiceMethod| path@ != (#[trigger] token_method_path(m))@,
            forall|m: TokenServiceMethod| path@ == (#[trigger] token_method_path(m))@ ==> r == Some(m),
    {
        proof {
            lemma_token_paths_distinct();
        }
        if path_is(path, TokenServiceMethod::GenerateToken.path()) {
            Some(TokenServiceMethod::GenerateToken)
        } else if path_is(path, TokenServiceMethod::ParseToken.path()) {
            Some(TokenServiceMethod::ParseToken)
        } else if path_is(path, TokenServiceMethod::RefreshToken.path()) {
            Some(TokenServiceMethod::RefreshToken)
        } else if path_is(path, TokenServiceMethod::ClearCache.path()) {
            Some(TokenServiceMethod::ClearCache)
        } else {
            proof {
                assert forall|m: TokenServiceMethod| path@ != (#[trigger] token_method_path(m))@ by {
                    match m {
                        TokenServiceMethod::GenerateToken => {},
                        TokenServiceMethod::ParseToken => {},
                        TokenServiceMethod::RefreshToken => {},
                        TokenServiceMethod::ClearCache => {},
                    }
                }
            }
            None
        }
    }
}

/// The name of the token service.
pub const TOKEN_SERVICE_NAME: &'static str = "auth.token.v1.TokenService";

} // verus!
