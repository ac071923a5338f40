[package]
name = "forza_rich_presence"
version = "0.1.0"
edition = "2021"
publish = false

[dependencies]
discord-rich-presence = "0.2"
serde_json = "1"
socket2 = "0.5"
sysinfo = "0.30"
tokio = { version = "1", features = ["sync", "time", "rt", "rt-multi-thread", "macros"] }
