[package]
name = "dictation"
version = "0.1.0"
edition = "2021"
publish = false

[dependencies]
cpal = "0.15"
hound = "3.5"
reqwest = { version = "0.12", features = ["blocking", "json"] }
rodio = "0.20"
serde = { version = "1", features = ["derive"] }
whisper-rs = "0.15"
