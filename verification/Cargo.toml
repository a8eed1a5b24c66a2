[package]
name = "youtube_player"
version = "0.1.0"
edition = "2021"
publish = false

[dependencies]
serde_json = "1"
wry = "0.24"
cocoa = "0.24"
objc = "0.2"
