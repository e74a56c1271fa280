use namecheap::text::{decimal, join, replace_all};

#[test]
fn decimal_formats_like_display() {
    for n in [0usize, 1, 9, 10, 11, 99, 100, 12345, usize::MAX] {
        assert_eq!(decimal(n), format!("{}", n));
    }
}

#[test]
fn replace_all_replaces_every_occurrence() {
    assert_eq!(replace_all("a{x}b{x}", "{x}", "1"), "a1b1");
    assert_eq!(replace_all("none here", "{x}", "1"), "none here");
    assert_eq!(replace_all("", "{x}", "1"), "");
}

#[test]
fn replace_all_takes_leftmost_non_overlapping_matches() {
    assert_eq!(replace_all("aaa", "aa", "X"), "Xa");
    assert_eq!(replace_all("aaaa", "aa", "X"), "XX");
}

#[test]
fn replace_all_does_not_rescan_inserted_text() {
    assert_eq!(replace_all("{a}", "{a}", "{a}{a}"), "{a}{a}");
}

#[test]
fn replace_all_matches_std_replace() {
    let cases = [
        ("héllo wörld wö", "wö", "∑"),
        ("x{hosts}y{hosts}", "{hosts}", ""),
        ("ababab", "bab", "Z"),
    ];
    for (s, p, r) in cases {
        assert_eq!(replace_all(s, p, r), s.replace(p, r));
    }
}

#[test]
fn join_places_separator_between_parts() {
    let parts = vec!["a".to_string(), "b".to_string(), "c".to_string()];
    assert_eq!(join(&parts, "; "), "a; b; c");
    assert_eq!(join(&vec!["only".to_string()], "; "), "only");
    assert_eq!(join(&Vec::new(), "; "), "");
}
