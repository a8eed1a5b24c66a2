use youtube_player::player::{PlayerAction, PlayerEvent, PlayerState};

#[test]
fn starts_hidden_and_unpinned() {
    let s = PlayerState::new();
    assert!(!s.buttons_visible);
    assert!(!s.pinned);
}

#[test]
fn started_logs() {
    let mut s = PlayerState::new();
    assert_eq!(
        s.step(PlayerEvent::Started),
        vec![PlayerAction::Log("YouTube Player started".to_string())]
    );
}

#[test]
fn buttons_follow_the_pointer() {
    let mut s = PlayerState::new();
    assert_eq!(s.step(PlayerEvent::Tick { hovered: false }), vec![]);
    assert_eq!(
        s.step(PlayerEvent::Tick { hovered: true }),
        vec![PlayerAction::SetButtonsVisible(true)]
    );
    assert!(s.buttons_visible);
    assert_eq!(s.step(PlayerEvent::Tick { hovered: true }), vec![]);
    assert_eq!(
        s.step(PlayerEvent::Tick { hovered: false }),
        vec![PlayerAction::SetButtonsVisible(false)]
    );
}

#[test]
fn toggle_pin_twice() {
    let mut s = PlayerState::new();
    assert_eq!(
        s.step(PlayerEvent::TogglePin),
        vec![
            PlayerAction::SetAlwaysOnTop(true),
            PlayerAction::RunScript("showToast(\"Always on top: on\")".to_string()),
        ]
    );
    assert!(s.pinned);
    assert_eq!(
        s.step(PlayerEvent::TogglePin),
        vec![
            PlayerAction::SetAlwaysOnTop(false),
            PlayerAction::RunScript("showToast(\"Always on top: off\")".to_string()),
        ]
    );
    assert_eq!(s, PlayerState::new());
}

#[test]
fn play_from_clipboard_loads_trimmed_url() {
    let mut s = PlayerState::new();
    let actions = s.step(PlayerEvent::PlayFromClipboard {
        clipboard: Some("  https://youtu.be/dQw4w9WgXcQ \n".to_string()),
    });
    assert_eq!(
        actions,
        vec![PlayerAction::RunScript(
            "loadVideoFromUrl(\"https://youtu.be/dQw4w9WgXcQ\")".to_string()
        )]
    );
}

#[test]
fn play_from_clipboard_escapes_the_url() {
    let mut s = PlayerState::new();
    let actions = s.step(PlayerEvent::PlayFromClipboard {
        clipboard: Some("a\"b\\c".to_string()),
    });
    assert_eq!(
        actions,
        vec![PlayerAction::RunScript("loadVideoFromUrl(\"a\\\"b\\\\c\")".to_string())]
    );
}

#[test]
fn play_from_empty_clipboard_shows_toast() {
    for clipboard in [None, Some("   ".to_string())] {
        let mut s = PlayerState::new();
        assert_eq!(
            s.step(PlayerEvent::PlayFromClipboard { clipboard }),
            vec![PlayerAction::RunScript(
                "showToast('Clipboard is empty — copy a YouTube link first')".to_string()
            )]
        );
    }
}

#[test]
fn menu_scripts_and_close() {
    let mut s = PlayerState::new();
    assert_eq!(
        s.step(PlayerEvent::EnterUrl),
        vec![PlayerAction::RunScript("showUrlInput()".to_string())]
    );
    assert_eq!(
        s.step(PlayerEvent::OpenInBrowser),
        vec![PlayerAction::RunScript("openInBrowser()".to_string())]
    );
    assert_eq!(s.step(PlayerEvent::CloseRequested), vec![PlayerAction::Exit]);
    assert_eq!(s.step(PlayerEvent::Other), vec![]);
    assert_eq!(s, PlayerState::new());
}
