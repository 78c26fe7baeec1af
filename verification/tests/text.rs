use bouncer::text::{
    chars_of, contains_text, decimal_text, equal, split, starts_with, strip_prefix, text_of,
    to_lowercase, trim_end_matches, trim_start_matches,
};

#[test]
fn chars_and_back() {
    let v = chars_of("héllo");
    assert_eq!(v, vec!['h', 'é', 'l', 'l', 'o']);
    assert_eq!(text_of(&v, 1, 4), "éll");
    assert_eq!(text_of(&v, 2, 2), "");
}

#[test]
fn lowercase_folds_ascii_only() {
    assert_eq!(to_lowercase("X-Bouncer-ROLE"), "x-bouncer-role");
    assert_eq!(to_lowercase("ÀB@[`{z"), "Àb@[`{z");
}

#[test]
fn equality_and_prefixes() {
    assert!(equal("abc", "abc"));
    assert!(!equal("abc", "abd"));
    assert!(!equal("abc", "ab"));
    assert!(starts_with("Bearer x", "Bearer "));
    assert!(starts_with("x", ""));
    assert!(!starts_with("Bear", "Bearer "));
    assert_eq!(strip_prefix("Bearer abc", "Bearer "), Some("abc".to_string()));
    assert_eq!(strip_prefix("Bearer ", "Bearer "), Some(String::new()));
    assert_eq!(strip_prefix("bearer abc", "Bearer "), None);
}

#[test]
fn trimming() {
    assert_eq!(trim_start_matches("///a/b/", '/'), "a/b/");
    assert_eq!(trim_end_matches("/a/b///", '/'), "/a/b");
    assert_eq!(trim_end_matches("///", '/'), "");
    assert_eq!(trim_start_matches("", '/'), "");
}

#[test]
fn splitting_keeps_empty_pieces() {
    assert_eq!(split("0.1.*", '.'), vec!["0", "1", "*"]);
    assert_eq!(split("", '.'), vec![""]);
    assert_eq!(split("a.", '.'), vec!["a", ""]);
    assert_eq!(split("..", '.'), vec!["", "", ""]);
    assert_eq!(split("abc", '.'), vec!["abc"]);
}

#[test]
fn decimal_digits() {
    assert_eq!(decimal_text(0), "0");
    assert_eq!(decimal_text(8080), "8080");
    assert_eq!(decimal_text(65535), "65535");
    assert_eq!(decimal_text(u64::MAX), "18446744073709551615");
}

#[test]
fn list_membership() {
    let list = vec!["user".to_string(), "admin".to_string()];
    assert!(contains_text(&list, "admin"));
    assert!(!contains_text(&list, "Admin"));
    assert!(!contains_text(&Vec::new(), "admin"));
}
