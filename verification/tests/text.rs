use mouser::text::is_whitespace;

#[test]
fn whitespace_is_the_unicode_white_space_set() {
    for u in 0u32..=0x10FFFF {
        if let Some(c) = char::from_u32(u) {
            assert_eq!(is_whitespace(c), c.is_whitespace(), "U+{u:04X}");
        }
    }
}
