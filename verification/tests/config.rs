use swift_run::config::{get_str_cancel, get_str_run, get_str_title};
use swift_run::text::encode_utf16;

#[test]
fn title_is_utf16_of_swift_run() {
    let expected: Vec<u16> = "Swift Run".encode_utf16().collect();
    assert_eq!(get_str_title(), expected);
}

#[test]
fn run_label_carries_the_return_glyph() {
    assert_eq!(get_str_run(), vec![82u16, 117, 110, 32, 0x21B5]);
}

#[test]
fn cancel_label() {
    let expected: Vec<u16> = "Cancel".encode_utf16().collect();
    assert_eq!(get_str_cancel(), expected);
}

#[test]
fn encode_utf16_uses_surrogate_pairs_above_the_basic_plane() {
    assert_eq!(encode_utf16("a\u{1F600}"), vec![0x61u16, 0xD83D, 0xDE00]);
    let expected: Vec<u16> = "a\u{1F600}\u{10000}\u{10FFFF}\u{FFFF}".encode_utf16().collect();
    assert_eq!(encode_utf16("a\u{1F600}\u{10000}\u{10FFFF}\u{FFFF}"), expected);
}

#[test]
fn encoding_agrees_with_the_standard_library() {
    for s in ["", "a", "\u{7f}\u{80}\u{7ff}\u{800}", "\u{d7ff}\u{e000}", "\u{ffff}\u{10000}\u{10ffff}", "Run \u{21B5}"] {
        let expected: Vec<u16> = s.encode_utf16().collect();
        assert_eq!(encode_utf16(s), expected);
    }
}
