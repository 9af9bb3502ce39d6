use fieldmid::text::{contains, i64_decimal, is_blank, str_eq, trim, u64_decimal};

#[test]
fn trimming_matches_std() {
    for s in ["  a b  ", "\u{3000}x\u{85}", "", "   ", "\t\n", "ä"] {
        assert_eq!(trim(s), s.trim());
        assert_eq!(is_blank(s), s.trim().is_empty());
    }
}

#[test]
fn substring_search_matches_std() {
    for (h, n) in [("hello", "ll"), ("hello", ""), ("", "a"), ("abc", "abcd"), ("aaab", "aab"), ("xyz", "q")] {
        assert_eq!(contains(h, n), h.contains(n));
    }
    assert!(str_eq("ä", "ä"));
    assert!(!str_eq("a", "ab"));
}

#[test]
fn decimals_match_std() {
    for n in [0u64, 9, 10, 99, 12345, u64::MAX] {
        assert_eq!(u64_decimal(n), n.to_string());
    }
    for n in [0i64, -1, 42, i64::MIN, i64::MAX] {
        assert_eq!(i64_decimal(n), n.to_string());
    }
}
