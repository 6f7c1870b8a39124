use ib_everything_ext::text::encode_utf16;
use ib_everything_ext::text::encode_wide;

fn std_units(text: &str) -> Vec<u16> {
    text.encode_utf16().collect()
}

#[test]
fn utf16_of_nothing() {
    assert_eq!(encode_utf16(""), Vec::<u16>::new());
}

#[test]
fn utf16_of_ascii() {
    assert_eq!(encode_utf16("1.5a"), vec![0x31, 0x2e, 0x35, 0x61]);
}

#[test]
fn utf16_of_the_basic_plane() {
    assert_eq!(encode_utf16("拼音"), vec![0x62fc, 0x97f3]);
    assert_eq!(encode_utf16("\u{ffff}"), vec![0xffff]);
    assert_eq!(encode_utf16("\u{d7ff}\u{e000}"), vec![0xd7ff, 0xe000]);
}

#[test]
fn utf16_surrogate_pairs() {
    assert_eq!(encode_utf16("\u{10000}"), vec![0xd800, 0xdc00]);
    assert_eq!(encode_utf16("\u{1f600}"), vec![0xd83d, 0xde00]);
    assert_eq!(encode_utf16("\u{10ffff}"), vec![0xdbff, 0xdfff]);
}

#[test]
fn utf16_agrees_with_std() {
    for text in ["", "a", "Everything", "1.5a", "拼音搜索", "a\u{1f600}b\u{10ffff}c", "\0x\0"] {
        assert_eq!(encode_utf16(text), std_units(text));
    }
}

#[test]
fn wide_text_ends_in_two_zeros() {
    assert_eq!(encode_wide(""), vec![0, 0]);
    assert_eq!(encode_wide("1.5a"), vec![0x31, 0x2e, 0x35, 0x61, 0, 0]);
    assert_eq!(encode_wide("\u{1f600}"), vec![0xd83d, 0xde00, 0, 0]);
}
