use vstd::prelude::*;
use crate::text::{has_prefix, str_has_prefix, str_equals};

verus! {

/// The message that closes the player.
pub const CLOSE_MESSAGE: &'static str = "close";

/// The prefix of a message that asks to open a URL in the browser.
pub const BROWSER_PREFIX: &'static str = "browser:";

/// The prefix of a message that asks to remember a URL.
pub const SAVE_PREFIX: &'static str = "save:";

/// The prefix of a message that reports a navigation.
pub const NAVIGATE_PREFIX: &'static str = "navigate:";

/// What a message from the page asks for, over character sequences.
pub enum IpcRequest {
    Close,
    OpenInBrowser(Seq<char>),
    SaveUrl(Seq<char>),
    Navigate(Seq<char>),
    Ignored,
}

/// What a message from the page asks for.
#[derive(Debug, Clone, PartialEq, Eq)]
pub enum IpcMessage {
    /// Quit the player.
    Close,
    /// Open this URL in the system browser.
    OpenInBrowser(String),
    /// Remember this URL for the next launch.
    SaveUrl(String),
    /// A navigation was reported; the whole message is kept for the log.
    Navigate(String),
    /// Anything else, which the player ignores.
    Ignored,
}

impl View for IpcMessage {
    type V = IpcRequest;

    open spec fn view(&self) -> IpcRequest {
        match self {
            IpcMessage::Close => IpcRequest::Close,
            IpcMessage::OpenInBrowser(u) => IpcRequest::OpenInBrowser(u@),
            IpcMessage::SaveUrl(u) => IpcRequest::SaveUrl(u@),
            IpcMessage::Navigate(m) => IpcRequest::Navigate(m@),
            IpcMessage::Ignored => IpcRequest::Ignored,
        }
    }
}

/// What the message `msg` asks for: `close` closes; a message that starts
/// with `browser:` or `save:` carries the URL that follows the prefix; one
/// that starts with `navigate:` is reported whole; the tests go in this
/// order, and anything else is ignored.
pub open spec fn ipc_request(msg: Seq<char>) -> IpcRequest {
    if msg == CLOSE_MESSAGE@ {
        IpcRequest::Close
    } else if has_prefix(msg, BROWSER_PREFIX@) {
        IpcRequest::OpenInBrowser(msg.skip(BROWSER_PREFIX@.len() as int))
    } else if has_prefix(msg, SAVE_PREFIX@) {
        IpcRequest::SaveUrl(msg.skip(SAVE_PREFIX@.len() as int))
    } else if has_prefix(msg, NAVIGATE_PREFIX@) {
        IpcRequest::Navigate(msg)
    } else {
        IpcRequest::Ignored
    }
}

/// The part of `msg` after its first `n` characters.
fn rest_after(msg: &str, n: usize) -> (res: String)
    requires
        n <= msg@.len(),
    ensures
        res@ == msg@.skip(n as int),
{
    let len = msg.unicode_len();
    let part = msg.substring_char(n, len);
    assert(msg@.subrange(n as int, len as int) =~= msg@.skip(n as int));
    String::from_str(part)
}

/// Understands a message that the page posts to the player.
pub fn parse_ipc_message(msg: &str) -> (res: IpcMessage)
    ensures
        res@ == ipc_request(msg@),
{
    if str_equals(msg, CLOSE_MESSAGE) {
        IpcMessage::Close
    } else if str_has_prefix(msg, BROWSER_PREFIX) {
        IpcMessage::OpenInBrowser(rest_after(msg, BROWSER_PREFIX.unicode_len()))
    } else if str_has_prefix(msg, SAVE_PREFIX) {
        IpcMessage::SaveUrl(rest_after(msg, SAVE_PREFIX.unicode_len()))
    } else if str_has_prefix(msg, NAVIGATE_PREFIX) {
        IpcMessage::Navigate(String::from_str(msg))
    } else {
        IpcMessage::Ignored
    }
}

/// The message that asks to remember `url` is understood as asking to
/// remember exactly `url`, whatever characters it holds.
pub proof fn lemma_save_message_carries_url(url: Seq<char>)
    ensures
        ipc_request(SAVE_PREFIX@ + url) == IpcRequest::SaveUrl(url),
{
    reveal_strlit("close");
    reveal_strlit("browser:");
    reveal_strlit("save:");
    let msg = SAVE_PREFIX@ + url;
    assert(msg[0] == 's');
    assert(msg != CLOSE_MESSAGE@) by {
        if msg.len() == CLOSE_MESSAGE@.len() {
            assert(msg[1] != CLOSE_MESSAGE@[1]);
        }
    }
    assert(!has_prefix(msg, BROWSER_PREFIX@)) by {
        if BROWSER_PREFIX@.len() <= msg.len() {
            assert(msg.subrange(0, 8)[0] != BROWSER_PREFIX@[0]);
        }
    }
    assert(msg.subrange(0, 5) =~= SAVE_PREFIX@);
    assert(msg.skip(5) =~= url);
}

/// The message that asks to open `url` in the browser is understood as
/// asking to open exactly `url`.
pub proof fn lemma_browser_message_carries_url(url: Seq<char>)
    ensures
        ipc_request(BROWSER_PREFIX@ + url) == IpcRequest::OpenInBrowser(url),
{
    reveal_strlit("close");
    reveal_strlit("browser:");
    let msg = BROWSER_PREFIX@ + url;
    assert(msg != CLOSE_MESSAGE@) by {
        if msg.len() == CLOSE_MESSAGE@.len() {
            assert(msg[0] != CLOSE_MESSAGE@[0]);
        }
    }
    assert(msg.subrange(0, 8) =~= BROWSER_PREFIX@);
    assert(msg.skip(8) =~= url);
}

/// `close` is understood as closing the player.
pub proof fn lemma_close_message_closes()
    ensures
        ipc_request(CLOSE_MESSAGE@) == IpcRequest::Close,
{
}

/// A navigation report is kept whole, prefix included, whatever follows the
/// prefix.
pub proof fn lemma_navigate_message_kept_whole(rest: Seq<char>)
    ensures
        ipc_request(NAVIGATE_PREFIX@ + rest) == IpcRequest::Navigate(NAVIGATE_PREFIX@ + rest),
{
    reveal_strlit("close");
    reveal_strlit("browser:");
    reveal_strlit("save:");
    reveal_strlit("navigate:");
    let msg = NAVIGATE_PREFIX@ + rest;
    assert(msg[0] == 'n');
    assert(msg != CLOSE_MESSAGE@) by {
        if msg.len() == CLOSE_MESSAGE@.len() {
            assert(msg[0] != CLOSE_MESSAGE@[0]);
        }
    }
    assert(!has_prefix(msg, BROWSER_PREFIX@)) by {
        if BROWSER_PREFIX@.len() <= msg.len() {
            assert(msg.subrange(0, 8)[0] != BROWSER_PREFIX@[0]);
        }
    }
    assert(!has_prefix(msg, SAVE_PREFIX@)) by {
        assert(msg.subrange(0, 5)[0] != SAVE_PREFIX@[0]);
    }
    assert(msg.subrange(0, 9) =~= NAVIGATE_PREFIX@);
}

} // verus!
