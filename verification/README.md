# youtube_player

A minimal desktop YouTube player: a webview window that plays a pasted
YouTube link, remembers the last one, and fades its titlebar buttons with
the pointer.

- `src/` is the verified library: white space and trimming (`text`), the
  `serde_json` calls it makes (`json`), the state file's place and contents
  (`state`), what the clipboard offers (`clipboard`), the messages the page
  posts (`ipc`), and the window's event loop as a state machine (`player`).
- `app/` is the program around it: the window, menus and webview (`wry`),
  the macOS calls (`cocoa`, `objc`), file and environment access, and the
  page itself (`app/page.rs`), whose script parses YouTube URLs in the
  browser.
