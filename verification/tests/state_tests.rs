use std::path::PathBuf;
use youtube_player::state::{
    initial_url, join, read_last_url, state_dir, state_dir_below_home, state_file,
    state_file_contents, url_from_member,
};

#[test]
fn join_matches_pathbuf_on_unix() {
    let bases = ["", "/", "/home/me", "/home/me/", "rel", "/a//"];
    let rels = ["state.json", "Library/Application Support/YouTube Player", "/abs/path", ""];
    for b in bases {
        for r in rels {
            let expected = PathBuf::from(b).join(r);
            let got = join(b.as_bytes(), r.as_bytes());
            assert_eq!(got, expected.to_str().unwrap().as_bytes(), "base {:?} rel {:?}", b, r);
        }
    }
}

#[test]
fn state_file_on_macos() {
    let path = state_file(Some(b"/Users/me"), true).unwrap();
    assert_eq!(
        String::from_utf8(path).unwrap(),
        "/Users/me/Library/Application Support/YouTube Player/state.json"
    );
}

#[test]
fn state_file_elsewhere() {
    let path = state_file(Some(b"/home/me/"), false).unwrap();
    assert_eq!(String::from_utf8(path).unwrap(), "/home/me/.config/youtube-player/state.json");
}

#[test]
fn state_file_without_home() {
    assert_eq!(state_file(None, true), None);
    assert_eq!(state_dir(None, false), None);
}

#[test]
fn state_dir_is_the_parent_of_the_state_file() {
    let dir = state_dir(Some(b"/home/me"), false).unwrap();
    let file = state_file(Some(b"/home/me"), false).unwrap();
    let file_path = PathBuf::from(String::from_utf8(file).unwrap());
    assert_eq!(file_path.parent().unwrap().to_str().unwrap().as_bytes(), dir.as_slice());
}

#[test]
fn state_file_contents_is_the_json_object() {
    assert_eq!(
        state_file_contents("https://youtu.be/dQw4w9WgXcQ"),
        "{\"last_url\":\"https://youtu.be/dQw4w9WgXcQ\"}"
    );
    assert_eq!(state_file_contents("a\"b\\c\n"), "{\"last_url\":\"a\\\"b\\\\c\\n\"}");
}

#[test]
fn state_file_contents_matches_serde_json() {
    let url = "https://www.youtube.com/watch?v=abc&list=PL1234567890";
    let mut map = serde_json::Map::new();
    map.insert("last_url".to_string(), serde_json::Value::String(url.to_string()));
    assert_eq!(state_file_contents(url), serde_json::Value::Object(map).to_string());
}

#[test]
fn read_after_write_gives_the_url_back() {
    for url in ["https://youtu.be/dQw4w9WgXcQ", "a\"b\\c\n\u{1}", "é ü 漢字", " x "] {
        assert_eq!(read_last_url(&state_file_contents(url)), Some(url.to_string()));
    }
}

#[test]
fn read_after_write_of_empty_url_is_none() {
    assert_eq!(read_last_url(&state_file_contents("")), None);
}

#[test]
fn read_last_url_of_other_contents() {
    assert_eq!(read_last_url(""), None);
    assert_eq!(read_last_url("not json"), None);
    assert_eq!(read_last_url("\"https://youtu.be/x\""), None);
    assert_eq!(read_last_url("{\"last_url\": 5}"), None);
    assert_eq!(read_last_url("{\"other\": \"x\"}"), None);
    assert_eq!(read_last_url("{\"last_url\": \"\"}"), None);
    assert_eq!(
        read_last_url(" { \"other\": 1, \"last_url\" : \"https://youtu.be/x\" } \n"),
        Some("https://youtu.be/x".to_string())
    );
}

#[test]
fn url_from_member_drops_empty() {
    assert_eq!(url_from_member(None), None);
    assert_eq!(url_from_member(Some(String::new())), None);
    assert_eq!(url_from_member(Some("u".to_string())), Some("u".to_string()));
}

#[test]
fn command_line_takes_precedence() {
    assert_eq!(initial_url(Some("arg".to_string()), Some("saved".to_string())), "arg");
    assert_eq!(initial_url(None, Some("saved".to_string())), "saved");
    assert_eq!(initial_url(None, None), "");
}

#[test]
fn state_dir_below_home_by_platform() {
    assert_eq!(state_dir_below_home(true), "Library/Application Support/YouTube Player");
    assert_eq!(state_dir_below_home(false), ".config/youtube-player");
}

#[test]
fn state_file_contents_escapes_controls_as_serde_json_does() {
    assert_eq!(state_file_contents("\u{1}\u{1f}\u{7f}/"), "{\"last_url\":\"\\u0001\\u001f\u{7f}/\"}");
    for n in 0u32..0x80 {
        let s = char::from_u32(n).unwrap().to_string();
        let mut map = serde_json::Map::new();
        map.insert("last_url".to_string(), serde_json::Value::String(s.clone()));
        assert_eq!(state_file_contents(&s), serde_json::Value::Object(map).to_string());
    }
}
