use oauth_gateway::text::{find_char, parse_u64, split_on, strip_quotes, trim};

#[test]
fn strip_quotes_double_quoted() {
    assert_eq!(strip_quotes(&String::from("\"abc\"")), "abc");
}

#[test]
fn strip_quotes_single_quoted() {
    assert_eq!(strip_quotes(&String::from("'x'")), "x");
}

#[test]
fn strip_quotes_unquoted() {
    assert_eq!(strip_quotes(&String::from("noquotes")), "noquotes");
}

#[test]
fn strip_quotes_only_quotes() {
    assert_eq!(strip_quotes(&String::from("\"\"")), "");
}

#[test]
fn strip_quotes_many_and_mixed() {
    assert_eq!(strip_quotes(&String::from("\"'\"abc'\"")), "abc");
    assert_eq!(strip_quotes(&String::from("a\"b")), "a\"b");
    assert_eq!(strip_quotes(&String::from("")), "");
}

#[test]
fn parse_u64_plain() {
    assert_eq!(parse_u64("3600"), Some(3600));
    assert_eq!(parse_u64("0"), Some(0));
    assert_eq!(parse_u64("007"), Some(7));
}

#[test]
fn parse_u64_max_and_overflow() {
    assert_eq!(parse_u64("18446744073709551615"), Some(u64::MAX));
    assert_eq!(parse_u64("18446744073709551616"), None);
}

#[test]
fn parse_u64_rejects_non_digits() {
    assert_eq!(parse_u64(""), None);
    assert_eq!(parse_u64("12a"), None);
    assert_eq!(parse_u64("-5"), None);
    assert_eq!(parse_u64("3.5"), None);
}

#[test]
fn split_on_basic() {
    assert_eq!(split_on("item/id", '/'), vec!["item".to_string(), "id".to_string()]);
    assert_eq!(split_on("a/b/c", '/'), vec!["a", "b", "c"]);
}

#[test]
fn split_on_edges() {
    assert_eq!(split_on("", '/'), vec![""]);
    assert_eq!(split_on("/", '/'), vec!["", ""]);
    assert_eq!(split_on("a//b", '/'), vec!["a", "", "b"]);
    assert_eq!(split_on("abc", '/'), vec!["abc"]);
}

#[test]
fn trim_ascii_whitespace() {
    assert_eq!(trim("  secret\n"), "secret");
    assert_eq!(trim("\t x y \r\n"), "x y");
    assert_eq!(trim("plain"), "plain");
    assert_eq!(trim("   "), "");
}

#[test]
fn find_char_positions() {
    assert_eq!(find_char("user:pass", ':'), Some(4));
    assert_eq!(find_char(":head", ':'), Some(0));
    assert_eq!(find_char("none", ':'), None);
    assert_eq!(find_char("a:b:c", ':'), Some(1));
}
