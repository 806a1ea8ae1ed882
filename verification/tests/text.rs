use image_transfer::text::{chars_of, str_eq, trim};

#[test]
fn trim_removes_whitespace_at_both_ends() {
    assert_eq!(trim(""), "");
    assert_eq!(trim("abc"), "abc");
    assert_eq!(trim("  abc"), "abc");
    assert_eq!(trim("abc \n"), "abc");
    assert_eq!(trim(" \t\r\n a b \u{b}\u{c} "), "a b");
    assert_eq!(trim(" \n\t "), "");
    assert_eq!(trim("\u{a0}\u{1680}\u{2000}\u{200a}\u{2028}\u{2029}\u{202f}\u{205f}\u{3000}x\u{85}"), "x");
    assert_eq!(trim("\u{200b}x\u{feff}"), "\u{200b}x\u{feff}");
    assert_eq!(trim(" \u{e9}t\u{e9} "), "\u{e9}t\u{e9}");
}

#[test]
fn trim_agrees_with_std() {
    for s in ["", " ", "a", " a", "a ", " a b ", "\n\na\n\n", "\u{3000}\u{1f4e6}\u{3000}", "x\u{0}"] {
        assert_eq!(trim(s), s.trim());
    }
}

#[test]
fn chars_and_equality() {
    assert_eq!(chars_of("a\u{e9}\u{1f4e6}"), vec!['a', '\u{e9}', '\u{1f4e6}']);
    assert!(chars_of("").is_empty());
    assert!(str_eq("", ""));
    assert!(str_eq("docker", "docker"));
    assert!(!str_eq("docker", "docke"));
    assert!(!str_eq("docker", "dockes"));
    assert!(!str_eq("\u{e9}", "e"));
}
