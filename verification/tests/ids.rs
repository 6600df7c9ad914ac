use common::decimal::{format_u64, parse_u64_chars, IntErrorKind};
use common::id::{Id, InvalidUuid, NextUUID, UUID};
use common::model::{user_id_from_str, AuthClaim, UserId};
use std::marker::PhantomData;

fn chars(s: &str) -> Vec<char> {
    s.chars().collect()
}

#[test]
fn decimal_text() {
    assert_eq!(format_u64(0), vec!['0']);
    assert_eq!(format_u64(12345), chars("12345"));
    assert_eq!(format_u64(u64::MAX), chars("18446744073709551615"));
}

#[test]
fn decimal_parse() {
    assert_eq!(parse_u64_chars(&chars("12")), Ok(12));
    assert_eq!(parse_u64_chars(&chars("007")), Ok(7));
    assert_eq!(parse_u64_chars(&[]), Err(IntErrorKind::Empty));
    assert_eq!(parse_u64_chars(&chars("1a")), Err(IntErrorKind::InvalidDigit));
    assert_eq!(parse_u64_chars(&chars("-1")), Err(IntErrorKind::InvalidDigit));
    assert_eq!(parse_u64_chars(&chars("18446744073709551615")), Ok(u64::MAX));
    assert_eq!(parse_u64_chars(&chars("18446744073709551616")), Err(IntErrorKind::PosOverflow));
}

#[test]
fn decimal_round_trip() {
    for n in [0u64, 1, 9, 10, 99, 1000, 4294967296, u64::MAX] {
        assert_eq!(parse_u64_chars(&format_u64(n)), Ok(n));
    }
}

#[test]
fn ids_compare_by_text() {
    let a: Id<()> = Id::from_u64(42);
    let b: Id<()> = Id::from_str_id("42");
    let c: Id<()> = Id::from_str_id("042");
    assert!(a == b);
    assert!(a != c);
    assert_eq!(a.as_string(), "42");
    assert_eq!(b.as_u64(), Ok(42));
    assert_eq!(c.as_u64(), Ok(42));
    let d: Id<()> = Id::from_str_id("abc");
    assert_eq!(d.as_u64(), Err(IntErrorKind::InvalidDigit));
    assert!(a.clone() == a);
}

#[test]
fn new_ids() {
    let n: Id<()> = Id::new_u64();
    assert_eq!(n.as_string(), "0");
    let s: Id<()> = Id::new_str();
    assert_eq!(s.as_string(), "");
    assert_eq!(s.as_u64(), Err(IntErrorKind::Empty));
}

#[test]
fn uuid_text() {
    let u: UUID<()> = UUID(0xa1a2a3a4b1b2c1c2d1d2d3d4d5d6d7d8, PhantomData);
    assert_eq!(u.to_string(), "a1a2a3a4-b1b2-c1c2-d1d2-d3d4d5d6d7d8");
    let back: UUID<()> = UUID::try_from("a1a2a3a4-b1b2-c1c2-d1d2-d3d4d5d6d7d8").unwrap();
    assert!(back == u);
    let simple: UUID<()> = UUID::try_from("a1a2a3a4b1b2c1c2d1d2d3d4d5d6d7d8").unwrap();
    assert!(simple == u);
    assert_eq!(UUID::<()>::try_from("not a uuid").unwrap_err(), InvalidUuid);
}

#[test]
fn new_uuids_are_version_four() {
    let next: NextUUID<()> = NextUUID::default();
    let a = next.next();
    let b: UUID<()> = UUID::new();
    for u in [a, b] {
        assert_eq!((u.0 >> 76) & 0xf, 4);
        assert_eq!((u.0 >> 62) & 0x3, 2);
        let t = u.to_string();
        assert_eq!(t.len(), 36);
        assert!(UUID::<()>::try_from(t.as_str()).unwrap() == u);
    }
    assert!(a != b);
}

#[test]
fn user_ids() {
    let a = UserId::from(7u64);
    let b = user_id_from_str("7");
    assert!(a != b);
    assert!(a == UserId::from(7u64));
    assert!(b == user_id_from_str("7"));
    assert_eq!(a.as_string(), b.as_string());
    assert_eq!(b.as_u64(), Ok(7));
    let c: UserId = "alice".parse().unwrap();
    assert_eq!(c.as_string(), "alice");
    assert_eq!(c.as_u64(), Err(IntErrorKind::InvalidDigit));
    assert_eq!(UserId::default().as_string(), "0");
}

#[test]
fn claims_builder() {
    let mut claim: AuthClaim<u32> = AuthClaim::new_with_payload(100, 5);
    claim.issuer("douban").subject("alice").audience("web").not_before(10).issue_at(20).jti("j1");
    assert_eq!(claim.exp, 100);
    assert_eq!(claim.iss, "douban");
    assert_eq!(claim.sub, "alice");
    assert_eq!(claim.aud, "web");
    assert_eq!(claim.nbf, 10);
    assert_eq!(claim.iat, 20);
    assert_eq!(claim.jti, "j1");
    assert_eq!(claim.payload, Some(5));
    claim.uuid_jti();
    assert_eq!(claim.jti.len(), 36);
    let plain: AuthClaim<u32> = AuthClaim::new(3);
    assert_eq!(plain.aud, "");
    assert_eq!(plain.payload, None);
}

#[test]
fn zero_check() {
    assert!(common::model::eq_zero(&0));
    assert!(!common::model::eq_zero(&1));
}

#[test]
fn ids_are_ordered_by_text() {
    let a: Id<()> = Id::from_str_id("a");
    let b: Id<()> = Id::from_str_id("b");
    let ab: Id<()> = Id::from_str_id("ab");
    assert!(a < b);
    assert!(a < ab);
    assert!(ab < b);
    let ten: Id<()> = Id::from_u64(10);
    let nine: Id<()> = Id::from_u64(9);
    assert!(ten < nine);
    assert_eq!(ten.partial_cmp(&Id::from_str_id("10")), Some(std::cmp::Ordering::Equal));
}

#[test]
fn uuids_are_ordered_by_value() {
    let small: UUID<()> = UUID(1, PhantomData);
    let big: UUID<()> = UUID(u128::MAX, PhantomData);
    assert!(small < big);
    assert_eq!(big.partial_cmp(&big), Some(std::cmp::Ordering::Equal));
}

#[test]
fn claim_ids_are_uuids() {
    let mut claim: AuthClaim<()> = AuthClaim::new(1);
    claim.uuid_jti();
    let id: UUID<()> = UUID::try_from(claim.jti.as_str()).unwrap();
    assert_eq!(id.to_string(), claim.jti);
    assert_eq!((id.0 >> 76) & 0xf, 4);
}
