use gewe_notice_mcp::text::{
    chars_of, append, contains, decimal, ends_with, eq_ignore_ascii_case, join, parse_i32,
    same_text, starts_with, to_ascii_lowercase, trim, trim_end_matches, trim_matches,
};

#[test]
fn chars_are_split_by_scalar_value() {
    assert_eq!(chars_of("a失b"), vec!['a', '失', 'b']);
    assert!(chars_of("").is_empty());
}

#[test]
fn trim_removes_unicode_white_space_at_both_ends() {
    assert_eq!(trim("  a b \t\n"), "a b");
    assert_eq!(trim("\u{3000}名\u{a0}"), "名");
    assert_eq!(trim(" \r\n "), "");
    assert_eq!(trim(""), "");
    assert_eq!(trim("x"), "x");
}

#[test]
fn trim_matches_strips_one_character() {
    assert_eq!(trim_matches("//a/b//", '/'), "a/b");
    assert_eq!(trim_matches("///", '/'), "");
    assert_eq!(trim_end_matches("/a/b//", '/'), "/a/b");
    assert_eq!(trim_end_matches("https://x/", '/'), "https://x");
    assert_eq!(trim_end_matches("", '/'), "");
}

#[test]
fn search_finds_a_text_where_it_stands() {
    assert!(contains("wxid@chatroom", "@chatroom"));
    assert!(contains("a@chatroomb", "@chatroom"));
    assert!(!contains("a@chatroo", "@chatroom"));
    assert!(contains("abc", ""));
    assert!(contains("", ""));
    assert!(!contains("", "a"));
    assert!(contains("操作失败了", "失败"));
    assert!(starts_with("wx_app", "wx_"));
    assert!(!starts_with("wx", "wx_"));
    assert!(!starts_with("awx_", "wx_"));
    assert!(ends_with("1@chatroom", "@chatroom"));
    assert!(!ends_with("1@chatroom ", "@chatroom"));
    assert!(ends_with("x", ""));
}

#[test]
fn case_is_folded_for_ascii_letters_only() {
    assert_eq!(to_ascii_lowercase("SerVer-Ä9"), "server-Ä9");
    assert!(eq_ignore_ascii_case("ALL", "all"));
    assert!(eq_ignore_ascii_case("aLl", "AlL"));
    assert!(!eq_ignore_ascii_case("all", "al"));
    assert!(!eq_ignore_ascii_case("Ä", "ä"));
    assert!(same_text("失败", "失败"));
    assert!(!same_text("a", "A"));
}

#[test]
fn numerals_are_read_as_std_reads_them() {
    let cases = [
        "0", "-0", "+0", "7", "-2", "-104", "-219", "+15", "007", "-0104", "2147483647",
        "-2147483648", "2147483648", "-2147483649", "99999999999999999999", "", "+", "-", "--1",
        "1-", " 1", "1 ", "１", "1_0", "0x10", "1e3", "+-1",
    ];
    for text in cases {
        assert_eq!(parse_i32(text), text.parse::<i32>().ok(), "numeral {:?}", text);
    }
    assert_eq!(parse_i32("-104"), Some(-104));
    assert_eq!(parse_i32("2147483648"), None);
}

#[test]
fn numbers_are_written_in_decimal() {
    assert_eq!(decimal(0), "0");
    assert_eq!(decimal(9), "9");
    assert_eq!(decimal(10), "10");
    assert_eq!(decimal(20971520), "20971520");
    assert_eq!(decimal(u64::MAX), "18446744073709551615");
}

#[test]
fn join_puts_the_separator_between() {
    let none: Vec<String> = vec![];
    assert_eq!(join(&none, ","), "");
    assert_eq!(join(&vec!["a".to_string()], ","), "a");
    assert_eq!(join(&vec!["a".to_string(), "".to_string(), "b".to_string()], ", "), "a, , b");
    assert_eq!(append("@", "名"), "@名");
}
