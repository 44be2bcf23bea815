use favis::text::{
    append, append_str, chars_of, contains, decimal_chars, ends_with, parse_u32_range, same,
    str_contains,
};

fn chars(s: &str) -> Vec<char> {
    s.chars().collect()
}

#[test]
fn chars_of_lists_every_character() {
    assert_eq!(chars_of("a/é✓"), vec!['a', '/', 'é', '✓']);
    assert_eq!(chars_of(""), Vec::<char>::new());
}

#[test]
fn append_adds_at_the_end() {
    let mut text = chars("fav");
    append(&mut text, &chars("icon"));
    append_str(&mut text, ".ico");
    assert_eq!(text, chars("favicon.ico"));
    append(&mut text, &Vec::new());
    assert_eq!(text, chars("favicon.ico"));
}

#[test]
fn same_compares_character_by_character() {
    assert!(same(&chars("icon"), &chars("icon")));
    assert!(!same(&chars("icon"), &chars("icons")));
    assert!(!same(&chars("icon"), &chars("ican")));
    assert!(same(&chars(""), &chars("")));
}

#[test]
fn contains_finds_infixes() {
    assert!(contains(&chars("insufficient memory"), &chars("memory")));
    assert!(contains(&chars("memory"), &chars("memory")));
    assert!(contains(&chars("memory"), &chars("")));
    assert!(contains(&chars(""), &chars("")));
    assert!(!contains(&chars("memor"), &chars("memory")));
    assert!(!contains(&chars(""), &chars("m")));
    assert!(contains(&chars("aab"), &chars("ab")));
    assert!(str_contains("That file format isn't supported.", "isn't supported"));
    assert!(!str_contains("That file format is supported.", "isn't supported"));
}

#[test]
fn ends_with_checks_the_tail() {
    assert!(ends_with(&chars("favicon.ico"), &chars(".ico")));
    assert!(!ends_with(&chars("favicon.ico.png"), &chars(".ico")));
    assert!(!ends_with(&chars("ico"), &chars(".ico")));
    assert!(ends_with(&chars("x"), &chars("")));
}

#[test]
fn decimal_chars_writes_plain_decimal() {
    assert_eq!(decimal_chars(0), chars("0"));
    assert_eq!(decimal_chars(7), chars("7"));
    assert_eq!(decimal_chars(10), chars("10"));
    assert_eq!(decimal_chars(256), chars("256"));
    assert_eq!(decimal_chars(4294967295), chars("4294967295"));
}

#[test]
fn parse_reads_an_optional_plus_and_digits() {
    let whole = |s: &str| {
        let c = chars(s);
        parse_u32_range(&c, 0, c.len())
    };
    assert_eq!(whole("32"), Some(32));
    assert_eq!(whole("+32"), Some(32));
    assert_eq!(whole("0032"), Some(32));
    assert_eq!(whole("0"), Some(0));
    assert_eq!(whole("4294967295"), Some(4294967295));
    assert_eq!(whole("4294967296"), None);
    assert_eq!(whole("99999999999999999999999"), None);
    assert_eq!(whole(""), None);
    assert_eq!(whole("+"), None);
    assert_eq!(whole("-5"), None);
    assert_eq!(whole("++5"), None);
    assert_eq!(whole(" 5"), None);
    assert_eq!(whole("5 "), None);
    assert_eq!(whole("3a"), None);
    assert_eq!(whole("٣"), None);
}

#[test]
fn parse_reads_only_the_given_range() {
    let text = chars("180x180");
    assert_eq!(parse_u32_range(&text, 0, 3), Some(180));
    assert_eq!(parse_u32_range(&text, 4, 7), Some(180));
    assert_eq!(parse_u32_range(&text, 0, 4), None);
    assert_eq!(parse_u32_range(&text, 3, 3), None);
    assert_eq!(parse_u32_range(&text, 1, 2), Some(8));
}
