use keyword_search::text::decimal_text;
use keyword_search::text::is_blank;
use keyword_search::text::same_text;

#[test]
fn decimal_of_small_and_large_numbers() {
    assert_eq!(decimal_text(0), "0");
    assert_eq!(decimal_text(7), "7");
    assert_eq!(decimal_text(10), "10");
    assert_eq!(decimal_text(109), "109");
    assert_eq!(decimal_text(12345), "12345");
    assert_eq!(decimal_text(usize::MAX), format!("{}", usize::MAX));
}

#[test]
fn blank_texts() {
    assert!(is_blank(""));
    assert!(is_blank("   "));
    assert!(is_blank(" \t\r\n"));
    assert!(is_blank("\u{a0}\u{3000}"));
    assert!(!is_blank(" a "));
    assert!(!is_blank("fox"));
}

#[test]
fn same_text_compares_characters() {
    assert!(same_text("", ""));
    assert!(same_text("png", "png"));
    assert!(same_text("日本", "日本"));
    assert!(!same_text("png", "pn"));
    assert!(!same_text("png", "pnG"));
    assert!(!same_text("", "a"));
    assert!(!same_text("日本", "日木"));
}

#[test]
fn white_space_is_these_characters_and_no_other() {
    let listed = |c: char| {
        let code = c as u32;
        (0x0009..=0x000d).contains(&code)
            || code == 0x0020
            || code == 0x0085
            || code == 0x00a0
            || code == 0x1680
            || (0x2000..=0x200a).contains(&code)
            || code == 0x2028
            || code == 0x2029
            || code == 0x202f
            || code == 0x205f
            || code == 0x3000
    };
    let mut buffer = [0u8; 4];
    for code in 0..=0x10ffffu32 {
        if let Some(c) = char::from_u32(code) {
            assert_eq!(is_blank(c.encode_utf8(&mut buffer)), listed(c), "U+{:04X}", code);
        }
    }
}
