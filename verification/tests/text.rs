use dsh_desktop::text::{chars_of, decimal_string, is_blank, keep_non_blank, signed_decimal_string};

#[test]
fn blank_means_that_trimming_leaves_nothing() {
    for code in 0..=0x10ffffu32 {
        if let Some(c) = char::from_u32(code) {
            let s = c.to_string();
            assert_eq!(is_blank(&s), s.trim().is_empty(), "{code:x}");
        }
    }
    assert!(is_blank(""));
    assert!(is_blank(" \t\r\n\u{3000}"));
    assert!(!is_blank("  x "));
}

#[test]
fn keep_non_blank_drops_blank_text_only() {
    assert_eq!(keep_non_blank(None), None);
    assert_eq!(keep_non_blank(Some(" \t".to_string())), None);
    assert_eq!(keep_non_blank(Some(" a ".to_string())), Some(" a ".to_string()));
}

#[test]
fn numerals_are_written_as_the_standard_library_does() {
    for n in [0, 9, 10, 99, 100, 61653, 65535, u64::MAX] {
        assert_eq!(decimal_string(n), n.to_string());
    }
    for i in [0, 7, -1, -10, 137, i32::MAX, i32::MIN] {
        assert_eq!(signed_decimal_string(i), i.to_string());
    }
}

#[test]
fn characters_come_in_order() {
    assert_eq!(chars_of("a\u{e9}\u{1f600}"), vec!['a', '\u{e9}', '\u{1f600}']);
    assert!(chars_of("").is_empty());
}
