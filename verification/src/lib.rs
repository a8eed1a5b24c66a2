//! The decision logic of a small desktop YouTube player: which text counts
//! as a pasted link, where the last video is remembered and how it is read
//! back, how messages from the page are understood, and how the window
//! reacts to each event of its loop.

pub mod text;
pub mod json;
pub mod state;
pub mod clipboard;
pub mod ipc;
pub mod player;
