use agent_sessions::paths::{decode_project_path, expand_path};
use agent_sessions::text::{
    find_str, lines, parse_usize_or_zero, split_char, starts_with, str_eq, trim, trim_char,
};

#[test]
fn str_eq_cases() {
    assert!(str_eq("", ""));
    assert!(str_eq("abc", "abc"));
    assert!(!str_eq("abc", "abd"));
    assert!(!str_eq("abc", "abcd"));
}

#[test]
fn starts_with_cases() {
    assert!(starts_with("worktree /a/b", "worktree "));
    assert!(starts_with("abc", ""));
    assert!(!starts_with("ab", "abc"));
    assert!(!starts_with("abc", "b"));
}

#[test]
fn trim_cases() {
    assert_eq!(trim("  a b \t"), "a b");
    assert_eq!(trim("\r\n"), "");
    assert_eq!(trim("x"), "x");
    assert_eq!(trim(""), "");
}

#[test]
fn trim_char_cases() {
    assert_eq!(trim_char("\"quoted\"", '"'), "quoted");
    assert_eq!(trim_char("''", '\''), "");
    assert_eq!(trim_char("none", '"'), "none");
    assert_eq!(trim_char("\"\"inner\"\"", '"'), "inner");
}

#[test]
fn split_char_cases() {
    assert_eq!(split_char("a\tb\tc", '\t'), vec!["a", "b", "c"]);
    assert_eq!(split_char("a,,b", ','), vec!["a", "", "b"]);
    assert_eq!(split_char("", ','), vec![""]);
    assert_eq!(split_char(",", ','), vec!["", ""]);
}

#[test]
fn lines_cases() {
    assert_eq!(lines("a\nb\n"), vec!["a", "b"]);
    assert_eq!(lines("a\r\nb"), vec!["a", "b"]);
    assert_eq!(lines(""), Vec::<String>::new());
    assert_eq!(lines("\n"), vec![""]);
}

#[test]
fn parse_usize_cases() {
    assert_eq!(parse_usize_or_zero("0"), 0);
    assert_eq!(parse_usize_or_zero("42"), 42);
    assert_eq!(parse_usize_or_zero("007"), 7);
    assert_eq!(parse_usize_or_zero("-"), 0);
    assert_eq!(parse_usize_or_zero(""), 0);
    assert_eq!(parse_usize_or_zero("12a"), 0);
    // far beyond the machine's range
    assert_eq!(parse_usize_or_zero("99999999999999999999999999"), 0);
}

#[test]
fn find_str_cases() {
    assert_eq!(find_str("abcabc", "bc"), Some(1));
    assert_eq!(find_str("abc", "x"), None);
    assert_eq!(find_str("abc", ""), Some(0));
    assert_eq!(find_str("---\nname: x\n---", "---"), Some(0));
    assert_eq!(find_str("name: x\n---\nrest", "---"), Some(8));
}

#[test]
fn expand_path_cases() {
    assert_eq!(expand_path("~", Some("/home/u"), None), Some("/home/u".to_string()));
    assert_eq!(expand_path("~/git/p", Some("/home/u"), None), Some("/home/u/git/p".to_string()));
    assert_eq!(expand_path("~/git/p", None, Some("/cwd")), None);
    assert_eq!(expand_path(".", None, Some("/cwd")), Some("/cwd".to_string()));
    assert_eq!(expand_path("./sub", None, Some("/cwd")), Some("/cwd/sub".to_string()));
    assert_eq!(expand_path(".", Some("/home/u"), None), None);
    assert_eq!(expand_path("/abs/path", None, None), Some("/abs/path".to_string()));
}

#[test]
fn decode_project_path_cases() {
    assert_eq!(decode_project_path("-Users-jo-git-proj"), "/Users/jo/git/proj");
    assert_eq!(decode_project_path("relative-dir"), "relative/dir");
    assert_eq!(decode_project_path(""), "");
}
