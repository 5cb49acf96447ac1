use streamline_operator::text::{
    char_is_white_space, hex8_text, i32_text, i64_text, join_texts, text_contains, text_is_blank,
    trim_text, u64_text, usize_text,
};

#[test]
fn numbers_are_written_as_the_standard_library_writes_them() {
    for n in [0i64, 7, -1, 10, 99, 100, -604_800_000, i64::MIN, i64::MAX] {
        assert_eq!(i64_text(n), n.to_string());
    }
    assert_eq!(i32_text(i32::MIN), i32::MIN.to_string());
    assert_eq!(u64_text(u64::MAX), u64::MAX.to_string());
    assert_eq!(usize_text(usize::MAX), usize::MAX.to_string());
    for n in [0u32, 0xbeef, 0x1234_5678, u32::MAX] {
        assert_eq!(hex8_text(n), format!("{n:08x}"));
    }
}

#[test]
fn white_space_is_that_of_the_standard_library() {
    for code in 0..=0x10_ffff_u32 {
        if let Some(c) = char::from_u32(code) {
            assert_eq!(char_is_white_space(c), c.is_whitespace(), "{code:#x}");
        }
    }
}

#[test]
fn texts_are_trimmed_and_searched() {
    for s in ["", " ", " a b\t", "\u{2003}x\u{a0}", "none"] {
        assert_eq!(trim_text(s), s.trim());
        assert_eq!(text_is_blank(s), s.trim().is_empty());
        for needle in ["", "a", " b", "x", "none such"] {
            assert_eq!(text_contains(s, needle), s.contains(needle));
        }
    }
}

#[test]
fn lists_are_joined() {
    let list: Vec<String> = ["a", "b", "c"].iter().map(|s| s.to_string()).collect();
    assert_eq!(join_texts(&list, "; "), "a; b; c");
    assert_eq!(join_texts(&list[..1].to_vec(), "; "), "a");
    assert_eq!(join_texts(&Vec::new(), "; "), "");
}
