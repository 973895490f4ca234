use bedrock_bot::language::Language;
use bedrock_bot::search::contains;
use bedrock_bot::search::find;
use bedrock_bot::search::matches_at;
use bedrock_bot::text::push_decimal;
use bedrock_bot::text::same_text;
use bedrock_bot::text::to_chars;

fn decimal_of(n: u64) -> String {
    let mut out = String::new();
    push_decimal(&mut out, n);
    out
}

#[test]
fn push_decimal_writes_numbers_as_display_does() {
    assert_eq!(decimal_of(0), "0");
    assert_eq!(decimal_of(7), "7");
    assert_eq!(decimal_of(10), "10");
    assert_eq!(decimal_of(19132), "19132");
    assert_eq!(decimal_of(1234567890), "1234567890");
    assert_eq!(decimal_of(u64::MAX), "18446744073709551615");
}

#[test]
fn push_decimal_appends() {
    let mut out = String::from("port ");
    push_decimal(&mut out, 65535);
    assert_eq!(out, "port 65535");
}

#[test]
fn to_chars_gives_characters_not_bytes() {
    assert_eq!(to_chars("aé🟢"), vec!['a', 'é', '🟢']);
    assert_eq!(to_chars(""), Vec::<char>::new());
}

#[test]
fn same_text_compares_contents() {
    assert!(same_text("server", "server"));
    assert!(!same_text("server", "Server"));
    assert!(!same_text("server", "servers"));
    assert!(same_text("", ""));
    assert!(same_text("サーバー", "サーバー"));
}

#[test]
fn find_gives_the_first_occurrence() {
    let hay: Vec<u8> = vec![1, 2, 3, 1, 2, 3];
    assert_eq!(find(&hay, &[2u8, 3]), Some(1));
    assert_eq!(find(&hay, &[3u8, 1]), Some(2));
    assert_eq!(find(&hay, &[1u8, 2, 3, 1, 2, 3]), Some(0));
    assert_eq!(find(&hay, &[3u8, 3]), None);
    assert_eq!(find(&hay, &[1u8, 2, 3, 1, 2, 3, 1]), None);
    assert_eq!(find(&hay, &[] as &[u8]), Some(0));
    assert_eq!(find(&[] as &[u8], &[] as &[u8]), Some(0));
    assert_eq!(find(&[] as &[u8], &[1u8]), None);
}

#[test]
fn find_reaches_the_last_position() {
    let hay: Vec<char> = "abcabd".chars().collect();
    let needle: Vec<char> = "abd".chars().collect();
    assert_eq!(find(&hay, &needle), Some(3));
    assert!(contains(&hay, &needle));
    assert!(matches_at(&hay, &needle, 3));
    assert!(!matches_at(&hay, &needle, 0));
    let absent: Vec<char> = "abe".chars().collect();
    assert!(!contains(&hay, &absent));
}

#[test]
fn language_follows_the_setting_without_regard_to_case() {
    assert_eq!(Language::from_setting(Some("EN")), Language::English);
    assert_eq!(Language::from_setting(Some("en")), Language::English);
    assert_eq!(Language::from_setting(Some("En")), Language::English);
    assert_eq!(Language::from_setting(Some("eN")), Language::English);
}

#[test]
fn language_defaults_to_japanese() {
    assert_eq!(Language::from_setting(None), Language::Japanese);
    assert_eq!(Language::from_setting(Some("JP")), Language::Japanese);
    assert_eq!(Language::from_setting(Some("")), Language::Japanese);
    assert_eq!(Language::from_setting(Some("english")), Language::Japanese);
    assert_eq!(Language::from_setting(Some("EN ")), Language::Japanese);
}

#[test]
fn from_uppercased_compares_exactly() {
    assert_eq!(Language::from_uppercased("EN"), Language::English);
    assert_eq!(Language::from_uppercased("en"), Language::Japanese);
    assert_eq!(Language::from_uppercased("ENG"), Language::Japanese);
    assert_eq!(Language::from_uppercased("E"), Language::Japanese);
    assert!(Language::English.is_english());
    assert!(!Language::Japanese.is_english());
}
