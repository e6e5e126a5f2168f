use tauri_mcp::text::{
    chars_of, contains, decimal, ends_with, is_whitespace, join, join2, join3, same_text, split,
    starts_with, trim,
};

#[test]
fn chars_and_equality() {
    assert_eq!(chars_of("aé"), vec!['a', 'é']);
    assert_eq!(chars_of(""), Vec::<char>::new());
    assert!(same_text("abc", "abc"));
    assert!(!same_text("abc", "abd"));
    assert!(!same_text("abc", "ab"));
}

#[test]
fn joining_texts() {
    assert_eq!(join2("ab", "cd"), "abcd");
    assert_eq!(join3("a", "", "c"), "ac");
    assert_eq!(join(&vec![], ", "), "");
    assert_eq!(join(&vec!["a".to_string()], ", "), "a");
    assert_eq!(join(&vec!["a".to_string(), "b".to_string(), "".to_string()], ", "), "a, b, ");
}

#[test]
fn searching_texts() {
    assert!(contains("src-tauri", "tauri"));
    assert!(contains("tauri", "tauri"));
    assert!(contains("anything", ""));
    assert!(contains("", ""));
    assert!(!contains("taur", "tauri"));
    assert!(!contains("", "a"));
    assert!(contains("aab", "ab"));
    assert!(starts_with("cmd+c", "cmd+"));
    assert!(!starts_with("cm", "cmd+"));
    assert!(!starts_with("xcmd+", "cmd+"));
    assert!(starts_with("x", ""));
    assert!(ends_with("app.exe", ".exe"));
    assert!(!ends_with("app.exe.bak", ".exe"));
    assert!(!ends_with("exe", ".exe"));
    assert!(ends_with("é.app", ".app"));
}

#[test]
fn splitting_texts() {
    assert_eq!(split("a+b+c", '+'), vec!["a", "b", "c"]);
    assert_eq!(split("abc", '+'), vec!["abc"]);
    assert_eq!(split("", '+'), vec![""]);
    assert_eq!(split("+", '+'), vec!["", ""]);
    assert_eq!(split("a++b+", '+'), vec!["a", "", "b", ""]);
    assert_eq!(split("é+ü", '+'), vec!["é", "ü"]);
}

#[test]
fn decimal_numerals() {
    assert_eq!(decimal(0), "0");
    assert_eq!(decimal(7), "7");
    assert_eq!(decimal(10), "10");
    assert_eq!(decimal(9222), "9222");
    assert_eq!(decimal(u64::MAX), "18446744073709551615");
}

#[test]
fn trimming_white_space() {
    assert_eq!(trim("  a b \t\r\n"), "a b");
    assert_eq!(trim("a"), "a");
    assert_eq!(trim(""), "");
    assert_eq!(trim(" \n "), "");
    assert_eq!(trim("\u{a0}x\u{3000}"), "x");
    assert_eq!(trim("\u{200b}x"), "\u{200b}x");
    for c in ['\t', '\n', '\u{b}', '\u{c}', '\r', ' ', '\u{85}', '\u{a0}', '\u{1680}',
        '\u{2000}', '\u{200a}', '\u{2028}', '\u{2029}', '\u{202f}', '\u{205f}', '\u{3000}']
    {
        assert!(is_whitespace(c));
        assert!(c.is_whitespace());
    }
    for c in ['a', '0', '\u{8}', '\u{e}', '\u{200b}', '\u{feff}', '\u{180e}'] {
        assert!(!is_whitespace(c));
        assert!(!c.is_whitespace());
    }
}
