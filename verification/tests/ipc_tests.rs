use youtube_player::ipc::{parse_ipc_message, IpcMessage};

#[test]
fn close_message() {
    assert_eq!(parse_ipc_message("close"), IpcMessage::Close);
    assert_eq!(parse_ipc_message("closed"), IpcMessage::Ignored);
}

#[test]
fn browser_message_carries_url() {
    assert_eq!(
        parse_ipc_message("browser:https://www.youtube.com/watch?v=abc"),
        IpcMessage::OpenInBrowser("https://www.youtube.com/watch?v=abc".to_string())
    );
}

#[test]
fn save_message_carries_url() {
    assert_eq!(
        parse_ipc_message("save:https://youtu.be/x?list=PL"),
        IpcMessage::SaveUrl("https://youtu.be/x?list=PL".to_string())
    );
    assert_eq!(parse_ipc_message("save:"), IpcMessage::SaveUrl(String::new()));
}

#[test]
fn navigate_message_is_kept_whole() {
    assert_eq!(
        parse_ipc_message("navigate:abc"),
        IpcMessage::Navigate("navigate:abc".to_string())
    );
}

#[test]
fn other_messages_are_ignored() {
    assert_eq!(parse_ipc_message(""), IpcMessage::Ignored);
    assert_eq!(parse_ipc_message("browser"), IpcMessage::Ignored);
    assert_eq!(parse_ipc_message(" save:x"), IpcMessage::Ignored);
}
