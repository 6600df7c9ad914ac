use common::cookies::{
    cookie_value, refresh_cookie, scan_cookies, CookieAuthConf, SameSite, DEFAULT_MAX_AGE,
};

#[test]
fn cookies_are_read_by_name() {
    let jar = scan_cookies(Some("a=1; b=2 ; a=3"));
    assert_eq!(jar.iter().count(), 2);
    assert_eq!(jar.delta().count(), 0);
    assert_eq!(cookie_value(&jar, "a"), Some("3".to_string()));
    assert_eq!(cookie_value(&jar, "b"), Some("2".to_string()));
    assert_eq!(cookie_value(&jar, "c"), None);
}

#[test]
fn cookie_values_are_percent_decoded() {
    let jar = scan_cookies(Some("k=a%20b"));
    assert_eq!(cookie_value(&jar, "k"), Some("a b".to_string()));
}

#[test]
fn pieces_that_are_not_cookies_are_skipped() {
    let jar = scan_cookies(Some("novalue; a=1"));
    assert_eq!(jar.iter().count(), 1);
    assert_eq!(cookie_value(&jar, "a"), Some("1".to_string()));
    assert_eq!(scan_cookies(None).iter().count(), 0);
}

#[test]
fn refreshed_token_cookie_text() {
    assert_eq!(
        refresh_cookie(true, Some("v"), DEFAULT_MAX_AGE),
        Some("x-token=v; HttpOnly; SameSite=None; Secure; Path=/; Max-Age=172800".to_string())
    );
    assert_eq!(refresh_cookie(false, Some("v"), DEFAULT_MAX_AGE), None);
    assert_eq!(refresh_cookie(true, None, DEFAULT_MAX_AGE), None);
}

#[test]
fn same_site_names() {
    assert_eq!(SameSite::from_name("Strict"), SameSite::Strict);
    assert_eq!(SameSite::from_name("lax"), SameSite::Lax);
    assert_eq!(SameSite::from_name("none"), SameSite::NoRestriction);
    assert_eq!(SameSite::from_name("anything"), SameSite::NoRestriction);
    for s in [SameSite::Strict, SameSite::Lax, SameSite::NoRestriction] {
        assert_eq!(SameSite::from_name(s.name()), s);
    }
    assert_eq!(SameSite::default(), SameSite::NoRestriction);
}

#[test]
fn cookie_settings_default() {
    let c = CookieAuthConf::default();
    assert_eq!(c.max_age, 2 * 24 * 60 * 60);
    assert!(c.http_only);
    assert!(c.secure);
    assert_eq!(c.same_site, SameSite::NoRestriction);
    assert_eq!(c.path, "/");
    assert_eq!(c.domain, "");
    assert_eq!(c.encrypted, None);
    assert_eq!(c.cookie_name, "x-token");
}

#[test]
fn changes_win_over_originals() {
    let mut jar = scan_cookies(Some("a=1"));
    jar.add(cookie::Cookie::new("a", "2"));
    assert_eq!(cookie_value(&jar, "a"), Some("2".to_string()));
    jar.remove(cookie::Cookie::named("a"));
    assert_eq!(cookie_value(&jar, "a"), None);
}
