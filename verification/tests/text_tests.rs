use youtube_player::text::{chars_of, is_white_space_char, str_equals, str_has_prefix, strip_backslashes, trim_str};

#[test]
fn white_space_matches_std_for_every_char() {
    for n in 0u32..=0x10FFFF {
        if let Some(c) = char::from_u32(n) {
            assert_eq!(is_white_space_char(c), c.is_whitespace(), "code point {:#x}", n);
        }
    }
}

#[test]
fn trim_matches_std() {
    let samples = [
        "",
        "   ",
        "abc",
        "  abc  ",
        "\t\n https://youtu.be/dQw4w9WgXcQ \r\n",
        "\u{3000}x\u{2028}",
        "a b c",
        "\u{a0}\u{85}",
        "  é ü  ",
    ];
    for s in samples {
        assert_eq!(trim_str(s), s.trim(), "sample {:?}", s);
    }
}

#[test]
fn trim_keeps_inner_white_space() {
    assert_eq!(trim_str("  a  b  "), "a  b");
}

#[test]
fn strip_backslashes_matches_replace() {
    let samples = ["", "\\", "a\\b\\\\c", "https://youtu.be/x", "\\\"quoted\\\""];
    for s in samples {
        assert_eq!(strip_backslashes(s), s.replace("\\", ""), "sample {:?}", s);
    }
    assert_eq!(strip_backslashes("a\\\"b"), "a\"b");
}

#[test]
fn prefix_and_equality() {
    assert!(str_has_prefix("browser:https://x", "browser:"));
    assert!(str_has_prefix("abc", ""));
    assert!(!str_has_prefix("brow", "browser:"));
    assert!(!str_has_prefix("save:x", "browser:"));
    assert!(str_equals("close", "close"));
    assert!(!str_equals("close", "closed"));
    assert!(!str_equals("Close", "close"));
}

#[test]
fn chars_of_gives_every_char() {
    assert_eq!(chars_of(""), Vec::<char>::new());
    assert_eq!(chars_of("aé漢🎵"), vec!['a', 'é', '漢', '🎵']);
}
