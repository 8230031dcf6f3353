use twofauth_client::text::{contains_chars, decimal_string, trim, trim_end_matching};

#[test]
fn trimming_follows_std() {
    for s in ["", "  ", " a ", "\u{85}x\u{a0}", "\u{200b}y", "a b", "\t\n z \r"] {
        assert_eq!(trim(s), s.trim());
        assert_eq!(trim_end_matching(s, ' '), s.trim_end_matches(' '));
    }
    assert_eq!(trim_end_matching("a///", '/'), "a");
}

#[test]
fn substring_search_and_decimals() {
    let hay: Vec<char> = "github".chars().collect();
    let hub: Vec<char> = "hub".chars().collect();
    let lab: Vec<char> = "lab".chars().collect();
    assert!(contains_chars(&hay, &hub));
    assert!(!contains_chars(&hay, &lab));
    assert!(contains_chars(&hay, &[]));
    assert_eq!(decimal_string(0), "0");
    assert_eq!(decimal_string(1234567890), "1234567890");
    assert_eq!(decimal_string(u64::MAX), u64::MAX.to_string());
}
