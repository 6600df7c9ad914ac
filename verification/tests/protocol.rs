use common::flow::{auth_step, AuthAction, AuthEvent, AuthStage};
use common::pool::Slots;
use common::proto::auth_token::{TokenKind, TokenServiceMethod, TOKEN_SERVICE_NAME};
use common::proto::celebrity::CelebrityServiceMethod;
use common::proto::movie::MovieServiceMethod;
use common::proto::{path_is, unimplemented_headers};

#[test]
fn token_service_routes() {
    assert_eq!(
        TokenServiceMethod::route("/auth.token.v1.TokenService/ParseToken"),
        Some(TokenServiceMethod::ParseToken)
    );
    assert_eq!(TokenServiceMethod::route("/auth.token.v1.TokenService/Nope"), None);
    for m in [
        TokenServiceMethod::GenerateToken,
        TokenServiceMethod::ParseToken,
        TokenServiceMethod::RefreshToken,
        TokenServiceMethod::ClearCache,
    ] {
        assert_eq!(TokenServiceMethod::route(m.path()), Some(m));
    }
    assert_eq!(TOKEN_SERVICE_NAME, "auth.token.v1.TokenService");
}

#[test]
fn movie_and_celebrity_routes() {
    assert_eq!(
        MovieServiceMethod::route("/movie.movie.v1.MovieService/ListMovies"),
        Some(MovieServiceMethod::ListMovies)
    );
    assert_eq!(MovieServiceMethod::route("/movie.movie.v1.MovieService/ListActors"), None);
    assert_eq!(
        CelebrityServiceMethod::route("/movie.celebrity.v1.CelebrityService/ListActors"),
        Some(CelebrityServiceMethod::ListActors)
    );
    assert_eq!(
        CelebrityServiceMethod::DelCelebrity.path(),
        "/movie.celebrity.v1.CelebrityService/DelCelebrity"
    );
    assert!(path_is("/a", "/a"));
    assert!(!path_is("/a", "/b"));
}

#[test]
fn unserved_paths_answer_unimplemented() {
    assert_eq!(
        unimplemented_headers(),
        vec![("grpc-status", "12"), ("content-type", "application/grpc")]
    );
}

#[test]
fn token_kinds() {
    assert_eq!(TokenKind::Access.as_str_name(), "ACCESS");
    assert_eq!(TokenKind::from_str_name("REFRESH"), Some(TokenKind::Refresh));
    assert_eq!(TokenKind::from_str_name("refresh"), None);
    assert_eq!(TokenKind::from_i32(1), Some(TokenKind::Refresh));
    assert_eq!(TokenKind::from_i32(2), None);
    assert_eq!(TokenKind::Access.to_i32(), 0);
    for k in [TokenKind::Access, TokenKind::Refresh] {
        assert_eq!(TokenKind::from_str_name(k.as_str_name()), Some(k));
    }
}

#[test]
fn authorized_call_writes_onto_the_answer() {
    let (s, a) = auth_step(AuthStage::Authorizing, AuthEvent::Authorized { write: Some("c=1") });
    assert!(matches!(a, AuthAction::CallInner));
    let (s, a) = auth_step(s, AuthEvent::Served { ok: true });
    assert!(matches!(a, AuthAction::Answer { write: Some("c=1") }));
    assert!(matches!(s, AuthStage::Finished));
}

#[test]
fn refused_call_never_reaches_the_service() {
    let (s, a) = auth_step(AuthStage::<&str>::Authorizing, AuthEvent::Refused);
    assert!(matches!(a, AuthAction::AnswerRefusal));
    let (s, a) = auth_step(s, AuthEvent::Served { ok: true });
    assert!(matches!(a, AuthAction::Ignore));
    assert!(matches!(s, AuthStage::Finished));
}

#[test]
fn failed_service_passes_its_error() {
    let (s, _) = auth_step(AuthStage::Authorizing, AuthEvent::Authorized { write: Some(1) });
    let (_, a) = auth_step(s, AuthEvent::Served { ok: false });
    assert!(matches!(a, AuthAction::AnswerError));
}

#[test]
fn pool_lends_first_idle_item() {
    let mut slots: Slots<u32> = Slots::new();
    slots.add_idle(10);
    slots.add_idle(20);
    assert_eq!(slots.len(), 2);
    let (i, v) = slots.acquire().unwrap();
    assert_eq!((i, *v), (0, 10));
    let (j, w) = slots.acquire().unwrap();
    assert_eq!((j, *w), (1, 20));
    assert!(slots.acquire().is_none());
    slots.release(0);
    let (k, x) = slots.acquire().unwrap();
    assert_eq!((k, *x), (0, 10));
}

#[test]
fn entries_share_their_item() {
    let e = common::pool::Entry::Idle(std::sync::Arc::new(3));
    let a = e.inner();
    assert_eq!(*a, 3);
    assert_eq!(std::sync::Arc::strong_count(&a), 2);
}
