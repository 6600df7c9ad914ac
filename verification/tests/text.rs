use common::text::{split_chars, trim_chars, trim_start_matches_chars};

fn chars(s: &str) -> Vec<char> {
    s.chars().collect()
}

fn text(v: &[char]) -> String {
    v.iter().collect()
}

#[test]
fn split_keeps_empty_pieces() {
    let parts: Vec<String> = split_chars(&chars("a;;b;"), ';').iter().map(|p| text(p)).collect();
    assert_eq!(parts, vec!["a", "", "b", ""]);
    let parts = split_chars(&[], ';');
    assert_eq!(parts.len(), 1);
}

#[test]
fn split_then_join_gives_the_text() {
    for s in ["a;b", ";", "", "x;y;z", "no separator"] {
        let parts: Vec<String> = split_chars(&chars(s), ';').iter().map(|p| text(p)).collect();
        assert_eq!(parts.join(";"), s);
    }
}

#[test]
fn trimming() {
    assert_eq!(text(&trim_chars(&chars("  a b \t"))), "a b");
    assert_eq!(text(&trim_chars(&chars("   "))), "");
    assert_eq!(text(&trim_start_matches_chars(&chars("abab c"), &chars("ab"))), " c");
}
