use vstd::prelude::*;
use crate::clipboard::{clipboard_text, offered_text};
use crate::json::{json_escaped, json_string_text, json_string_literal};
use crate::text::{trim, trim_str};

verus! {

/// What the player logs once its event loop has started.
pub const STARTED_MESSAGE: &'static str = "YouTube Player started";

/// The script that brings the URL entry screen back.
pub const SHOW_URL_INPUT_SCRIPT: &'static str = "showUrlInput()";

/// The script that opens the current video in the browser.
pub const OPEN_IN_BROWSER_SCRIPT: &'static str = "openInBrowser()";

/// The script that reports an empty clipboard.
pub const EMPTY_CLIPBOARD_SCRIPT: &'static str =
    "showToast('Clipboard is empty — copy a YouTube link first')";

/// The toast shown when the window is pinned on top.
pub const PINNED_MESSAGE: &'static str = "Always on top: on";

/// The toast shown when the window is no longer pinned on top.
pub const UNPINNED_MESSAGE: &'static str = "Always on top: off";

/// The call that loads a video, before its argument.
pub const LOAD_VIDEO_CALL: &'static str = "loadVideoFromUrl(";

/// The call that shows a toast, before its argument.
pub const SHOW_TOAST_CALL: &'static str = "showToast(";

/// What closes a call.
pub const CALL_END: &'static str = ")";

/// The window's state between events: whether the titlebar buttons are
/// shown, and whether the window is pinned on top.
#[derive(Clone, Copy, PartialEq, Eq, Structural, Debug)]
pub struct PlayerState {
    pub buttons_visible: bool,
    pub pinned: bool,
}

/// One event of the window's loop, with what the loop read for it.
#[derive(Debug, Clone, PartialEq, Eq)]
pub enum PlayerEvent {
    /// The loop has started.
    Started,
    /// The loop woke up; `hovered` tells whether the pointer is over the window.
    Tick { hovered: bool },
    /// The "Play URL from Clipboard" menu item; `clipboard` is what the
    /// clipboard holds as plain text, if anything.
    PlayFromClipboard { clipboard: Option<String> },
    /// The "Enter URL…" or "New Video…" menu item.
    EnterUrl,
    /// The "Always on Top" menu item.
    TogglePin,
    /// The "Open in Browser" menu item.
    OpenInBrowser,
    /// The window was asked to close.
    CloseRequested,
    /// Any other event.
    Other,
}

/// What the loop does in answer to an event, over character sequences.
pub enum Effect {
    Log(Seq<char>),
    SetButtonsVisible(bool),
    RunScript(Seq<char>),
    SetAlwaysOnTop(bool),
    Exit,
}

/// What the loop does in answer to an event.
#[derive(Debug, Clone, PartialEq, Eq)]
pub enum PlayerAction {
    /// Print this line.
    Log(String),
    /// Fade the titlebar buttons in (`true`) or out (`false`).
    SetButtonsVisible(bool),
    /// Evaluate this script in the page.
    RunScript(String),
    /// Pin the window on top (`true`) or unpin it.
    SetAlwaysOnTop(bool),
    /// Leave the event loop.
    Exit,
}

impl View for PlayerAction {
    type V = Effect;

    open spec fn view(&self) -> Effect {
        match self {
            PlayerAction::Log(s) => Effect::Log(s@),
            PlayerAction::SetButtonsVisible(b) => Effect::SetButtonsVisible(*b),
            PlayerAction::RunScript(s) => Effect::RunScript(s@),
            PlayerAction::SetAlwaysOnTop(b) => Effect::SetAlwaysOnTop(*b),
            PlayerAction::Exit => Effect::Exit,
        }
    }
}

/// The script that loads the video at `url`, trimmed.
pub open spec fn load_video_script(url: Seq<char>) -> Seq<char> {
    LOAD_VIDEO_CALL@ + json_string_text(trim(url)) + CALL_END@
}

/// The script that shows `message` as a toast.
pub open spec fn toast_script(message: Seq<char>) -> Seq<char> {
    SHOW_TOAST_CALL@ + json_string_text(message) + CALL_END@
}

/// The toast for the pinned state `pinned`.
pub open spec fn pin_message(pinned: bool) -> Seq<char> {
    if pinned {
        PINNED_MESSAGE@
    } else {
        UNPINNED_MESSAGE@
    }
}

/// The state after `event`.
pub open spec fn next_state(s: PlayerState, event: PlayerEvent) -> PlayerState {
    match event {
        PlayerEvent::Tick { hovered } => PlayerState { buttons_visible: hovered, ..s },
        PlayerEvent::TogglePin => PlayerState { pinned: !s.pinned, ..s },
        _ => s,
    }
}

/// What the loop does in answer to `event` in the state `s`, in order.
pub open spec fn effects(s: PlayerState, event: PlayerEvent) -> Seq<Effect> {
    match event {
        PlayerEvent::Started => seq![Effect::Log(STARTED_MESSAGE@)],
        PlayerEvent::Tick { hovered } => if hovered != s.buttons_visible {
            seq![Effect::SetButtonsVisible(hovered)]
        } else {
            seq![]
        },
        PlayerEvent::PlayFromClipboard { clipboard } => match offered_text(
            clipboard.deep_view(),
        ) {
            Some(url) => seq![Effect::RunScript(load_video_script(url))],
            None => seq![Effect::RunScript(EMPTY_CLIPBOARD_SCRIPT@)],
        },
        PlayerEvent::EnterUrl => seq![Effect::RunScript(SHOW_URL_INPUT_SCRIPT@)],
        PlayerEvent::TogglePin => seq![
            Effect::SetAlwaysOnTop(!s.pinned),
            Effect::RunScript(toast_script(pin_message(!s.pinned))),
        ],
        PlayerEvent::OpenInBrowser => seq![Effect::RunScript(OPEN_IN_BROWSER_SCRIPT@)],
        PlayerEvent::CloseRequested => seq![Effect::Exit],
        PlayerEvent::Other => seq![],
    }
}

/// The concatenation of `a`, `b` and `c`.
fn concat3(a: &str, b: &str, c: &str) -> (res: String)
    ensures
        res@ == a@ + b@ + c@,
{
    let mut res = String::from_str(a);
    res.append(b);
    res.append(c);
    res
}

impl PlayerState {
    /// The state at launch: buttons hidden, window not pinned.
    pub fn new() -> (s: PlayerState)
        ensures
            !s.buttons_visible,
            !s.pinned,
    {
        PlayerState { buttons_visible: false, pinned: false }
    }

    /// Answers `event`: updates the state and gives what the loop must do,
    /// in order.
    pub fn step(&mut self, event: PlayerEvent) -> (actions: Vec<PlayerAction>)
        ensures
            *final(self) == next_state(*old(self), event),
            actions@.map_values(|a: PlayerAction| a@) == effects(*old(self), event),
    {
        let ghost before = *self;
        let mut actions: Vec<PlayerAction> = Vec::new();
        match event {
            PlayerEvent::Started => {
                actions.push(PlayerAction::Log(String::from_str(STARTED_MESSAGE)));
            },
            PlayerEvent::Tick { hovered } => {
                if hovered != self.buttons_visible {
                    self.buttons_visible = hovered;
                    actions.push(PlayerAction::SetButtonsVisible(hovered));
                }
            },
            PlayerEvent::PlayFromClipboard { clipboard } => {
                match clipboard_text(clipboard) {
                    Some(url) => {
                        let trimmed = trim_str(url.as_str());
                        let quoted = json_string_literal(trimmed.as_str());
                        let script = concat3(LOAD_VIDEO_CALL, quoted.as_str(), CALL_END);
                        actions.push(PlayerAction::RunScript(script));
                    },
                    None => {
                        actions.push(
                            PlayerAction::RunScript(String::from_str(EMPTY_CLIPBOARD_SCRIPT)),
                        );
                    },
                }
            },
            PlayerEvent::EnterUrl => {
                actions.push(PlayerAction::RunScript(String::from_str(SHOW_URL_INPUT_SCRIPT)));
            },
            PlayerEvent::TogglePin => {
                self.pinned = !self.pinned;
                actions.push(PlayerAction::SetAlwaysOnTop(self.pinned));
                let message = if self.pinned {
                    PINNED_MESSAGE
                } else {
                    UNPINNED_MESSAGE
                };
                let quoted = json_string_literal(message);
                let script = concat3(SHOW_TOAST_CALL, quoted.as_str(), CALL_END);
                actions.push(PlayerAction::RunScript(script));
            },
            PlayerEvent::OpenInBrowser => {
                actions.push(PlayerAction::RunScript(String::from_str(OPEN_IN_BROWSER_SCRIPT)));
            },
            PlayerEvent::CloseRequested => {
                actions.push(PlayerAction::Exit);
            },
            PlayerEvent::Other => {},
        }
        assert(actions@.map_values(|a: PlayerAction| a@) =~= effects(before, event));
        actions
    }
}

/// Pinning is a switch: two presses of "Always on Top" leave the window as
/// it was.
pub proof fn lemma_pin_toggles_back(s: PlayerState)
    ensures
        next_state(next_state(s, PlayerEvent::TogglePin), PlayerEvent::TogglePin) == s,
{
}

/// The titlebar buttons follow the pointer: after a tick the buttons are
/// shown exactly when the pointer was over the window, and a second tick
/// with the pointer where it was does nothing.
pub proof fn lemma_buttons_follow_pointer(s: PlayerState, hovered: bool)
    ensures
        next_state(s, PlayerEvent::Tick { hovered }).buttons_visible == hovered,
        effects(next_state(s, PlayerEvent::Tick { hovered }), PlayerEvent::Tick { hovered })
            == Seq::<Effect>::empty(),
{
    assert(effects(next_state(s, PlayerEvent::Tick { hovered }), PlayerEvent::Tick { hovered })
        =~= Seq::<Effect>::empty());
}


/// Pinning the window shows the toast `showToast("Always on top: on")`, and
/// unpinning it `showToast("Always on top: off")`.
pub proof fn lemma_pin_toast_scripts()
    ensures
        toast_script(pin_message(true)) == "showToast(\"Always on top: on\")"@,
        toast_script(pin_message(false)) == "showToast(\"Always on top: off\")"@,
{
    reveal_strlit("Always on top: on");
    reveal_strlit("Always on top: off");
    reveal_strlit("showToast(");
    reveal_strlit(")");
    reveal_strlit("showToast(\"Always on top: on\")");
    reveal_strlit("showToast(\"Always on top: off\")");
    reveal_with_fuel(json_escaped, 19);
    assert(toast_script(pin_message(true)) =~= "showToast(\"Always on top: on\")"@);
    assert(toast_script(pin_message(false)) =~= "showToast(\"Always on top: off\")"@);
}
/// A close request always ends the loop, whether the window is pinned or
/// its buttons shown, and changes nothing else.
pub proof fn lemma_close_always_exits(s: PlayerState)
    ensures
        effects(s, PlayerEvent::CloseRequested) == seq![Effect::Exit],
        next_state(s, PlayerEvent::CloseRequested) == s,
{
}

/// A tick fades the buttons exactly when the pointer's presence changed,
/// to the state it leaves them in; pinning plays no part, and a tick never
/// pins or unpins.
pub proof fn lemma_tick_fades_on_change_only(s: PlayerState, hovered: bool, pinned: bool)
    ensures
        effects(s, PlayerEvent::Tick { hovered }) == effects(
            PlayerState { pinned, ..s },
            PlayerEvent::Tick { hovered },
        ),
        effects(s, PlayerEvent::Tick { hovered }).len() > 0 <==> hovered != s.buttons_visible,
        forall|i: int|
            0 <= i < effects(s, PlayerEvent::Tick { hovered }).len() ==> #[trigger] effects(
                s,
                PlayerEvent::Tick { hovered },
            )[i] == Effect::SetButtonsVisible(
                next_state(s, PlayerEvent::Tick { hovered }).buttons_visible,
            ),
        next_state(s, PlayerEvent::Tick { hovered }).pinned == s.pinned,
{
}

/// "Always on Top" flips the pin, pins the window as the new state says,
/// then shows a toast that names that new state: "on" when the window is
/// now pinned, "off" when it is not. The buttons play no part.
pub proof fn lemma_toggle_pin_reports_new_state(s: PlayerState)
    ensures
        next_state(s, PlayerEvent::TogglePin).pinned != s.pinned,
        next_state(s, PlayerEvent::TogglePin).buttons_visible == s.buttons_visible,
        effects(s, PlayerEvent::TogglePin) == seq![
            Effect::SetAlwaysOnTop(next_state(s, PlayerEvent::TogglePin).pinned),
            Effect::RunScript(toast_script(pin_message(next_state(s, PlayerEvent::TogglePin).pinned))),
        ],
        next_state(s, PlayerEvent::TogglePin).pinned ==> effects(s, PlayerEvent::TogglePin)[1]
            == Effect::RunScript("showToast(\"Always on top: on\")"@),
        !next_state(s, PlayerEvent::TogglePin).pinned ==> effects(s, PlayerEvent::TogglePin)[1]
            == Effect::RunScript("showToast(\"Always on top: off\")"@),
{
    lemma_pin_toast_scripts();
}

/// Only ticks and "Always on Top" depend on or change the window's state:
/// every other event leaves the state as it is and is answered the same way
/// in every state.
pub proof fn lemma_other_events_ignore_state(s: PlayerState, t: PlayerState, event: PlayerEvent)
    requires
        !(event is Tick),
        !(event is TogglePin),
    ensures
        next_state(s, event) == s,
        effects(s, event) == effects(t, event),
{
}

/// "Play URL from Clipboard" loads the clipboard's text, trimmed, where it
/// holds more than white space, and otherwise reports an empty clipboard.
pub proof fn lemma_clipboard_play(s: PlayerState, clipboard: Option<String>)
    ensures
        effects(s, PlayerEvent::PlayFromClipboard { clipboard }) == (match clipboard {
            Some(text) => if !crate::text::is_blank(text@) {
                seq![Effect::RunScript(
                    LOAD_VIDEO_CALL@ + json_string_text(trim(text@)) + CALL_END@,
                )]
            } else {
                seq![Effect::RunScript(EMPTY_CLIPBOARD_SCRIPT@)]
            },
            None => seq![Effect::RunScript(EMPTY_CLIPBOARD_SCRIPT@)],
        }),
{
    if let Some(text) = clipboard {
        crate::text::lemma_trim_empty_iff_blank(text@);
    }
}

} // verus!
