use termix_local::clock::{now_secs, timestamp_from, timestamp_string};
use termix_local::text::{
    contains, ends_with, has_char, i64_text, joined, joined3, same_text, starts_with, strip_prefix,
    trim, trim_end_char, u64_text, word_at_start,
};

#[test]
fn trims_white_space_at_both_ends() {
    assert_eq!(trim("  a b \t\n"), "a b");
    assert_eq!(trim("\u{3000}x\u{a0}"), "x");
    assert_eq!(trim(" \r\n "), "");
    assert_eq!(trim(""), "");
    assert_eq!(trim(trim("  a  ")), trim("  a  "));
}

#[test]
fn trims_one_character_at_the_end() {
    assert_eq!(trim_end_char("http://host///", '/'), "http://host");
    assert_eq!(trim_end_char("///", '/'), "");
    assert_eq!(trim_end_char("a/b", '/'), "a/b");
}

#[test]
fn finds_parts() {
    assert!(contains("UNIQUE constraint failed", "UNIQUE"));
    assert!(contains("abc", ""));
    assert!(!contains("ab", "abc"));
    assert!(!contains("unique", "UNIQUE"));
    assert!(starts_with("Bearer x", "Bearer "));
    assert!(!starts_with("bearer x", "Bearer "));
    assert!(ends_with("run.sh", ".sh"));
    assert!(!ends_with("sh", ".sh"));
    assert!(has_char("a.b", '.'));
    assert!(!has_char("ab", '.'));
    assert!(same_text("\u{e9}", "\u{e9}"));
    assert!(!same_text("a", "ab"));
}

#[test]
fn strips_prefixes() {
    assert_eq!(strip_prefix("jwt=abc", "jwt="), Some("abc"));
    assert_eq!(strip_prefix("jwt", "jwt="), None);
    assert_eq!(strip_prefix("\u{e9}x", "\u{e9}"), Some("x"));
}

#[test]
fn takes_the_first_word() {
    assert_eq!(word_at_start("ssh-rsa AAAA me@host"), "ssh-rsa");
    assert_eq!(word_at_start("  one\ttwo"), "one");
    assert_eq!(word_at_start("   "), "");
}

#[test]
fn joins_texts() {
    assert_eq!(joined("a", "b"), "ab");
    assert_eq!(joined3("h", ":", "22"), "h:22");
}

#[test]
fn prints_numbers() {
    assert_eq!(i64_text(0), "0");
    assert_eq!(i64_text(-1), "-1");
    assert_eq!(i64_text(i64::MIN), "-9223372036854775808");
    assert_eq!(i64_text(i64::MAX), "9223372036854775807");
    assert_eq!(u64_text(u64::MAX), "18446744073709551615");
    assert_eq!(timestamp_string(1700000000), "1700000000");
}

#[test]
fn makes_timestamps() {
    assert_eq!(timestamp_from(None), 0);
    assert_eq!(timestamp_from(Some(7)), 7);
    assert_eq!(timestamp_from(Some(u64::MAX)), -1);
    assert_eq!(timestamp_from(Some(1 << 63)), i64::MIN);
    let clock = || std::time::SystemTime::now().duration_since(std::time::UNIX_EPOCH).unwrap().as_secs() as i64;
    let before = clock();
    let now = now_secs();
    assert!(before <= now && now <= clock());
    assert!(now > 1600000000);
}
