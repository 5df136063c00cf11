use llm_providers::text::is_blank;

const WHITE_SPACE: [u32; 25] = [
    0x09, 0x0a, 0x0b, 0x0c, 0x0d, 0x20, 0x85, 0xa0, 0x1680, 0x2000, 0x2001, 0x2002, 0x2003, 0x2004,
    0x2005, 0x2006, 0x2007, 0x2008, 0x2009, 0x200a, 0x2028, 0x2029, 0x202f, 0x205f, 0x3000,
];

#[test]
fn every_character_is_blank_or_not_by_the_unicode_property() {
    for code in 0..=0x10ffff_u32 {
        if let Some(c) = char::from_u32(code) {
            let expected = WHITE_SPACE.contains(&code);
            assert_eq!(is_blank(&c.to_string()), expected, "U+{:04X}", code);
        }
    }
}

#[test]
fn texts_are_blank_if_all_their_characters_are() {
    assert!(is_blank(""));
    assert!(is_blank(" \t\r\n\u{3000}"));
    assert!(!is_blank(" \n.\n "));
    assert!(!is_blank("\u{200b}"));
}

#[test]
fn texts_are_the_same_if_all_their_characters_are() {
    assert!(llm_providers::text::same_text("", ""));
    assert!(llm_providers::text::same_text("stop", "stop"));
    assert!(!llm_providers::text::same_text("stop", "stopped"));
    assert!(!llm_providers::text::same_text("stopped", "stop"));
    assert!(!llm_providers::text::same_text("stop", "Stop"));
    assert!(!llm_providers::text::same_text("", "a"));
}
