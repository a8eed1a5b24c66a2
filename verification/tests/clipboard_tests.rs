use youtube_player::clipboard::clipboard_text;

#[test]
fn empty_clipboard_offers_nothing() {
    assert_eq!(clipboard_text(None), None);
    assert_eq!(clipboard_text(Some(String::new())), None);
    assert_eq!(clipboard_text(Some(" \t\n\u{3000}".to_string())), None);
}

#[test]
fn clipboard_text_is_kept_untrimmed() {
    let raw = "  https://youtu.be/dQw4w9WgXcQ \n".to_string();
    assert_eq!(clipboard_text(Some(raw.clone())), Some(raw));
}
